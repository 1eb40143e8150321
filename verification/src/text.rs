//! Character-level text model shared by the rest of the crate.
//!
//! Strings are reasoned about through their views, `Seq<char>`. The spec
//! functions below state what the usual `str` operations compute, and the
//! executable helpers are proved against them.
use vstd::prelude::*;

verus! {

// ---------------------------------------------------------------------------
// Character classes
// ---------------------------------------------------------------------------

/// Unicode `White_Space`, the set that `char::is_whitespace` and `str::trim` use.
pub open spec fn is_ws(c: char) -> bool {
    let u = c as u32;
    ||| u == 0x09 || u == 0x0A || u == 0x0B || u == 0x0C || u == 0x0D
    ||| u == 0x20 || u == 0x85 || u == 0xA0 || u == 0x1680
    ||| (0x2000 <= u && u <= 0x200A)
    ||| u == 0x2028 || u == 0x2029 || u == 0x202F || u == 0x205F || u == 0x3000
}

pub open spec fn is_digit(c: char) -> bool {
    '0' <= c && c <= '9'
}

pub open spec fn is_upper(c: char) -> bool {
    'A' <= c && c <= 'Z'
}

pub open spec fn is_lower(c: char) -> bool {
    'a' <= c && c <= 'z'
}

pub open spec fn is_alpha(c: char) -> bool {
    is_upper(c) || is_lower(c)
}

pub open spec fn is_alnum(c: char) -> bool {
    is_alpha(c) || is_digit(c)
}

/// `char::to_ascii_uppercase`.
pub open spec fn upper_char(c: char) -> char {
    if is_lower(c) {
        ((c as u32) - 32) as char
    } else {
        c
    }
}

/// `str::to_ascii_uppercase`.
pub open spec fn upper(s: Seq<char>) -> Seq<char> {
    s.map_values(|c: char| upper_char(c))
}

pub open spec fn all_digits(s: Seq<char>) -> bool {
    forall|i: int| 0 <= i < s.len() ==> is_digit(#[trigger] s[i])
}

pub fn is_ws_char(c: char) -> (res: bool)
    ensures
        res == is_ws(c),
{
    let u = c as u32;
    u == 0x09 || u == 0x0A || u == 0x0B || u == 0x0C || u == 0x0D || u == 0x20 || u == 0x85
        || u == 0xA0 || u == 0x1680 || (0x2000 <= u && u <= 0x200A) || u == 0x2028 || u
        == 0x2029 || u == 0x202F || u == 0x205F || u == 0x3000
}

pub fn is_digit_char(c: char) -> (res: bool)
    ensures
        res == is_digit(c),
{
    '0' <= c && c <= '9'
}

pub fn is_upper_char(c: char) -> (res: bool)
    ensures
        res == is_upper(c),
{
    'A' <= c && c <= 'Z'
}

pub fn is_lower_char(c: char) -> (res: bool)
    ensures
        res == is_lower(c),
{
    'a' <= c && c <= 'z'
}

pub fn is_alnum_char(c: char) -> (res: bool)
    ensures
        res == is_alnum(c),
{
    is_upper_char(c) || is_lower_char(c) || is_digit_char(c)
}

pub fn upper_char_exec(c: char) -> (res: char)
    ensures
        res == upper_char(c),
{
    if is_lower_char(c) {
        let u = (c as u32) - 32;
        proof {
            assert(u < 0xD800);
        }
        char_from_ascii(u)
    } else {
        c
    }
}

/// The character with an ASCII code point.
fn char_from_ascii(u: u32) -> (res: char)
    requires
        u < 128,
    ensures
        res == u as char,
{
    let b = u as u8;
    let c = b as char;
    proof {
        assert(c as u32 == u);
    }
    c
}

// ---------------------------------------------------------------------------
// Trimming
// ---------------------------------------------------------------------------

/// `str::trim_start`.
pub open spec fn trim_start(s: Seq<char>) -> Seq<char>
    decreases s.len(),
{
    if s.len() > 0 && is_ws(s[0]) {
        trim_start(s.drop_first())
    } else {
        s
    }
}

/// `str::trim_end`.
pub open spec fn trim_end(s: Seq<char>) -> Seq<char>
    decreases s.len(),
{
    if s.len() > 0 && is_ws(s.last()) {
        trim_end(s.drop_last())
    } else {
        s
    }
}

/// `str::trim`.
pub open spec fn trim(s: Seq<char>) -> Seq<char> {
    trim_end(trim_start(s))
}

/// A trimmed text has no whitespace at either end.
pub proof fn lemma_trim_edges(s: Seq<char>)
    ensures
        trim(s).len() > 0 ==> !is_ws(trim(s)[0]) && !is_ws(trim(s).last()),
        trim(s).len() <= s.len(),
    decreases s.len(),
{
    lemma_trim_start_edge(s);
    lemma_trim_end_edge(trim_start(s));
    lemma_trim_end_prefix(trim_start(s));
}

pub proof fn lemma_trim_start_edge(s: Seq<char>)
    ensures
        trim_start(s).len() > 0 ==> !is_ws(trim_start(s)[0]),
        trim_start(s).len() <= s.len(),
        exists|k: int| 0 <= k <= s.len() && trim_start(s) == s.subrange(k, s.len() as int),
    decreases s.len(),
{
    if s.len() > 0 && is_ws(s[0]) {
        lemma_trim_start_edge(s.drop_first());
        let k = choose|k: int|
            0 <= k <= s.drop_first().len() && trim_start(s.drop_first()) == s.drop_first().subrange(
                k,
                s.drop_first().len() as int,
            );
        assert(s.drop_first().subrange(k, s.drop_first().len() as int) =~= s.subrange(
            k + 1,
            s.len() as int,
        ));
    } else {
        assert(s.subrange(0, s.len() as int) =~= s);
    }
}

pub proof fn lemma_trim_end_edge(s: Seq<char>)
    ensures
        trim_end(s).len() > 0 ==> !is_ws(trim_end(s).last()),
        trim_end(s).len() <= s.len(),
    decreases s.len(),
{
    if s.len() > 0 && is_ws(s.last()) {
        lemma_trim_end_edge(s.drop_last());
    }
}

/// `trim_end` keeps a prefix, and the kept prefix starts like the input.
pub proof fn lemma_trim_end_prefix(s: Seq<char>)
    ensures
        exists|k: int| 0 <= k <= s.len() && trim_end(s) == s.subrange(0, k),
        trim_end(s).len() > 0 ==> trim_end(s)[0] == s[0],
    decreases s.len(),
{
    if s.len() > 0 && is_ws(s.last()) {
        lemma_trim_end_prefix(s.drop_last());
        let k = choose|k: int|
            0 <= k <= s.drop_last().len() && trim_end(s.drop_last()) == s.drop_last().subrange(
                0,
                k,
            );
        assert(s.drop_last().subrange(0, k) =~= s.subrange(0, k));
    } else {
        assert(s.subrange(0, s.len() as int) =~= s);
    }
}

/// A trimmed text is a contiguous part of the text.
pub proof fn lemma_trim_is_subrange(s: Seq<char>)
    ensures
        exists|a: int, b: int| 0 <= a <= b <= s.len() && trim(s) == s.subrange(a, b),
{
    lemma_trim_start_edge(s);
    let k = choose|k: int| 0 <= k <= s.len() && trim_start(s) == s.subrange(k, s.len() as int);
    let u = trim_start(s);
    lemma_trim_end_prefix(u);
    let j = choose|j: int| 0 <= j <= u.len() && trim_end(u) == u.subrange(0, j);
    assert(u.subrange(0, j) =~= s.subrange(k, k + j));
}

/// Trimming twice is trimming once.
pub proof fn lemma_trim_idempotent(s: Seq<char>)
    ensures
        trim(trim(s)) == trim(s),
{
    let t = trim(s);
    lemma_trim_edges(s);
    if t.len() > 0 {
        assert(trim_start(t) == t);
        assert(trim_end(t) == t);
    } else {
        assert(trim_start(t) == t);
        assert(trim_end(t) == t);
    }
}

/// The index of the first character of `s` at or after `i` that is not whitespace.
fn skip_ws_forward(v: &Vec<char>, start: usize) -> (res: usize)
    requires
        start <= v.len(),
    ensures
        start <= res <= v.len(),
        trim_start(v@.subrange(start as int, v.len() as int)) == v@.subrange(
            res as int,
            v.len() as int,
        ),
        res < v.len() ==> !is_ws(v@[res as int]),
{
    let mut i = start;
    while i < v.len() && is_ws_char(v[i])
        invariant
            start <= i <= v.len(),
            trim_start(v@.subrange(start as int, v.len() as int)) == trim_start(
                v@.subrange(i as int, v.len() as int),
            ),
        decreases v.len() - i,
    {
        proof {
            let sub = v@.subrange(i as int, v.len() as int);
            assert(sub.drop_first() =~= v@.subrange(i + 1, v.len() as int));
        }
        i = i + 1;
    }
    i
}

/// Bounds `(a, b)` such that `trim(v@) == v@[a..b]`.
pub fn trim_bounds(v: &Vec<char>) -> (res: (usize, usize))
    ensures
        res.0 <= res.1 <= v.len(),
        trim(v@) == v@.subrange(res.0 as int, res.1 as int),
        trim_start(v@) == v@.subrange(res.0 as int, v.len() as int),
{
    proof {
        assert(v@.subrange(0, v.len() as int) =~= v@);
    }
    let a = skip_ws_forward(v, 0);
    let mut b = v.len();
    while b > a && is_ws_char(v[b - 1])
        invariant
            a <= b <= v.len(),
            trim_end(v@.subrange(a as int, v.len() as int)) == trim_end(
                v@.subrange(a as int, b as int),
            ),
        decreases b,
    {
        proof {
            let sub = v@.subrange(a as int, b as int);
            assert(sub.drop_last() =~= v@.subrange(a as int, b - 1));
        }
        b = b - 1;
    }
    (a, b)
}

/// The characters `v[a..b]`.
pub fn sub_chars(v: &Vec<char>, a: usize, b: usize) -> (res: Vec<char>)
    requires
        a <= b <= v.len(),
    ensures
        res@ == v@.subrange(a as int, b as int),
{
    let mut res: Vec<char> = Vec::new();
    let mut i = a;
    while i < b
        invariant
            a <= i <= b <= v.len(),
            res@ == v@.subrange(a as int, i as int),
        decreases b - i,
    {
        res.push(v[i]);
        proof {
            assert(res@ =~= v@.subrange(a as int, i + 1));
        }
        i = i + 1;
    }
    res
}

/// `s.trim()`, as characters.
pub fn trim_chars(s: &str) -> (res: Vec<char>)
    ensures
        res@ == trim(s@),
{
    let v = chars_of(s);
    let (a, b) = trim_bounds(&v);
    sub_chars(&v, a, b)
}

/// `s.trim().to_string()`.
pub fn trimmed(s: &str) -> (res: String)
    ensures
        res@ == trim(s@),
{
    let v = trim_chars(s);
    string_of(&v)
}

/// `s.trim_start()`, as characters.
pub fn trim_start_chars(v: &Vec<char>) -> (res: Vec<char>)
    ensures
        res@ == trim_start(v@),
{
    let (a, _) = trim_bounds(v);
    sub_chars(v, a, v.len())
}

// ---------------------------------------------------------------------------
// Conversions between `str`, `String` and characters
// ---------------------------------------------------------------------------

/// The characters of a string slice, in order.
pub fn chars_of(s: &str) -> (res: Vec<char>)
    ensures
        res@ == s@,
{
    let mut res: Vec<char> = Vec::new();
    for c in it: s.chars()
        invariant
            res@ == it.seq().take(it.index() as int),
    {
        res.push(c);
    }
    proof {
        assert(res@ =~= s@);
    }
    res
}

/// `String::push` (std): appends one character.
#[verifier::external_body]
pub fn push_char(s: &mut String, c: char)
    ensures
        final(s)@ == old(s)@.push(c),
{
    s.push(c);
}

/// The string made of the given characters.
pub fn string_of(v: &Vec<char>) -> (res: String)
    ensures
        res@ == v@,
{
    let mut res = String::new();
    let mut i: usize = 0;
    while i < v.len()
        invariant
            i <= v.len(),
            res@ == v@.take(i as int),
        decreases v.len() - i,
    {
        push_char(&mut res, v[i]);
        proof {
            assert(res@ =~= v@.take(i + 1));
        }
        i = i + 1;
    }
    proof {
        assert(v@.take(v.len() as int) =~= v@);
    }
    res
}

/// A fresh `String` with the contents of a slice.
pub fn owned(s: &str) -> (res: String)
    ensures
        res@ == s@,
{
    s.to_owned()
}

/// Appends the characters of `v` to `out`.
pub fn push_chars(out: &mut Vec<char>, v: &Vec<char>)
    ensures
        final(out)@ == old(out)@ + v@,
{
    let ghost start = out@;
    let mut i: usize = 0;
    while i < v.len()
        invariant
            i <= v.len(),
            out@ == start + v@.take(i as int),
        decreases v.len() - i,
    {
        out.push(v[i]);
        proof {
            assert(out@ =~= start + v@.take(i + 1));
        }
        i = i + 1;
    }
    proof {
        assert(v@.take(v.len() as int) =~= v@);
    }
}

/// Appends the characters of a string slice to `out`.
pub fn push_str_chars(out: &mut Vec<char>, s: &str)
    ensures
        final(out)@ == old(out)@ + s@,
{
    let v = chars_of(s);
    push_chars(out, &v);
}

/// The concatenation of three strings.
pub fn concat3(a: &str, b: &str, c: &str) -> (res: String)
    ensures
        res@ == a@ + b@ + c@,
{
    let mut res = a.to_owned();
    res.append(b);
    res.append(c);
    res
}

/// The concatenation of five strings.
pub fn concat5(a: &str, b: &str, c: &str, d: &str, e: &str) -> (res: String)
    ensures
        res@ == a@ + b@ + c@ + d@ + e@,
{
    let mut res = a.to_owned();
    res.append(b);
    res.append(c);
    res.append(d);
    res.append(e);
    res
}

/// Two character sequences are equal.
pub fn chars_eq(a: &Vec<char>, b: &Vec<char>) -> (res: bool)
    ensures
        res == (a@ == b@),
{
    if a.len() != b.len() {
        return false;
    }
    let mut i: usize = 0;
    while i < a.len()
        invariant
            a.len() == b.len(),
            i <= a.len(),
            forall|k: int| 0 <= k < i ==> a@[k] == b@[k],
        decreases a.len() - i,
    {
        if a[i] != b[i] {
            return false;
        }
        i = i + 1;
    }
    proof {
        assert(a@ =~= b@);
    }
    true
}

/// Two strings are equal.
pub fn str_eq(a: &str, b: &str) -> (res: bool)
    ensures
        res == (a@ == b@),
{
    let va = chars_of(a);
    let vb = chars_of(b);
    chars_eq(&va, &vb)
}

// ---------------------------------------------------------------------------
// Searching
// ---------------------------------------------------------------------------

/// `needle` occurs in `s` at index `i`.
pub open spec fn occurs_at(s: Seq<char>, needle: Seq<char>, i: int) -> bool {
    0 <= i && i + needle.len() <= s.len() && s.subrange(i, i + needle.len()) == needle
}

/// `str::contains` with a string pattern.
pub open spec fn contains(s: Seq<char>, needle: Seq<char>) -> bool {
    exists|i: int| occurs_at(s, needle, i)
}

/// `str::starts_with` with a string pattern.
pub open spec fn starts_with(s: Seq<char>, prefix: Seq<char>) -> bool {
    occurs_at(s, prefix, 0)
}

/// The first index at or after `i` where `needle` occurs.
pub open spec fn find_from(s: Seq<char>, needle: Seq<char>, i: int) -> Option<int>
    decreases s.len() - i,
{
    if i < 0 || i + needle.len() > s.len() {
        None
    } else if occurs_at(s, needle, i) {
        Some(i)
    } else if i >= s.len() {
        None
    } else {
        find_from(s, needle, i + 1)
    }
}

/// `str::find` with a string pattern.
pub open spec fn find(s: Seq<char>, needle: Seq<char>) -> Option<int> {
    find_from(s, needle, 0)
}

/// `find_from` returns the first occurrence at or after its start.
pub proof fn lemma_find_from(s: Seq<char>, needle: Seq<char>, i: int)
    requires
        0 <= i,
    ensures
        find_from(s, needle, i) matches Some(k) ==> i <= k && occurs_at(s, needle, k) && forall|
            j: int,
        |
            i <= j < k ==> !occurs_at(s, needle, j),
        find_from(s, needle, i) is None ==> forall|j: int| i <= j ==> !occurs_at(s, needle, j),
    decreases s.len() - i,
{
    if i + needle.len() > s.len() {
    } else if occurs_at(s, needle, i) {
    } else if i >= s.len() {
        assert(occurs_at(s, needle, i)) by {
            assert(s.subrange(i, i + needle.len()) =~= needle);
        }
    } else {
        lemma_find_from(s, needle, i + 1);
    }
}

/// `find` is `Some` exactly when the pattern occurs.
pub proof fn lemma_find_contains(s: Seq<char>, needle: Seq<char>)
    ensures
        (find(s, needle) is Some) == contains(s, needle),
        find(s, needle) matches Some(k) ==> occurs_at(s, needle, k) && forall|j: int|
            0 <= j < k ==> !occurs_at(s, needle, j),
{
    lemma_find_from(s, needle, 0);
    if find(s, needle) is None {
        assert forall|j: int| !occurs_at(s, needle, j) by {
            if j >= 0 {
            }
        }
    }
}

/// Whether `needle` occurs in `v` at index `i`.
pub fn occurs_at_exec(v: &Vec<char>, needle: &Vec<char>, i: usize) -> (res: bool)
    ensures
        res == occurs_at(v@, needle@, i as int),
{
    if i > v.len() || needle.len() > v.len() - i {
        return false;
    }
    let mut k: usize = 0;
    while k < needle.len()
        invariant
            i + needle.len() <= v.len(),
            k <= needle.len(),
            forall|j: int| 0 <= j < k ==> v@[i + j] == needle@[j],
        decreases needle.len() - k,
    {
        if v[i + k] != needle[k] {
            proof {
                assert(v@.subrange(i as int, i + needle.len())[k as int] != needle@[k as int]);
            }
            return false;
        }
        k = k + 1;
    }
    proof {
        assert(v@.subrange(i as int, i + needle.len()) =~= needle@);
    }
    true
}

/// The first occurrence of `needle` in `v` at or after `start`.
pub fn find_from_exec(v: &Vec<char>, needle: &Vec<char>, start: usize) -> (res: Option<usize>)
    ensures
        match res {
            Some(k) => find_from(v@, needle@, start as int) == Some(k as int),
            None => find_from(v@, needle@, start as int) is None,
        },
{
    if start > v.len() || needle.len() > v.len() - start {
        return None;
    }
    let mut i = start;
    let last = v.len() - needle.len();
    while i <= last
        invariant
            start <= i,
            start + needle.len() <= v.len(),
            last == v.len() - needle.len(),
            find_from(v@, needle@, start as int) == find_from(v@, needle@, i as int),
        decreases v.len() - i,
    {
        if occurs_at_exec(v, needle, i) {
            return Some(i);
        }
        if i >= v.len() {
            proof {
                assert(v@.subrange(i as int, i + needle.len()) =~= needle@);
            }
            return None;
        }
        i = i + 1;
    }
    None
}

/// `hay.contains(needle)`, on characters.
pub fn contains_chars(hay: &Vec<char>, needle: &Vec<char>) -> (res: bool)
    ensures
        res == contains(hay@, needle@),
{
    proof {
        lemma_find_contains(hay@, needle@);
    }
    find_from_exec(hay, needle, 0).is_some()
}

/// `hay.contains(needle)` for a string pattern.
pub fn contains_str(hay: &Vec<char>, needle: &str) -> (res: bool)
    ensures
        res == contains(hay@, needle@),
{
    let n = chars_of(needle);
    contains_chars(hay, &n)
}

/// `s.starts_with(prefix)` for a string pattern.
pub fn starts_with_str(s: &Vec<char>, prefix: &str) -> (res: bool)
    ensures
        res == starts_with(s@, prefix@),
{
    let p = chars_of(prefix);
    occurs_at_exec(s, &p, 0)
}

// ---------------------------------------------------------------------------
// Lower-casing (std)
// ---------------------------------------------------------------------------

/// A text of ASCII characters only.
pub open spec fn is_ascii_text(s: Seq<char>) -> bool {
    forall|i: int| 0 <= i < s.len() ==> (#[trigger] s[i] as u32) < 128
}

/// `char::to_ascii_lowercase`.
pub open spec fn lower_char(c: char) -> char {
    if is_upper(c) {
        ((c as u32) + 32) as char
    } else {
        c
    }
}

/// The ASCII lower-casing of a text.
pub open spec fn lower(s: Seq<char>) -> Seq<char> {
    s.map_values(|c: char| lower_char(c))
}

/// What `str::to_lowercase` returns for a text.
pub uninterp spec fn unicode_lowercase(s: Seq<char>) -> Seq<char>;

/// `str::to_lowercase` (std): the full Unicode lower-case mapping of the text,
/// a function of the text alone; on ASCII text it is the ASCII lower-casing,
/// as the Unicode mapping of an ASCII letter is its ASCII counterpart.
#[verifier::external_body]
pub fn to_lowercase(s: &str) -> (res: String)
    ensures
        res@ == unicode_lowercase(s@),
        is_ascii_text(s@) ==> res@ == lower(s@),
{
    s.to_lowercase()
}

/// What `str::to_uppercase` returns for a text.
pub uninterp spec fn unicode_uppercase(s: Seq<char>) -> Seq<char>;

/// `str::to_uppercase` (std): the full Unicode upper-case mapping of the text,
/// a function of the text alone; on ASCII text it is the ASCII upper-casing.
#[verifier::external_body]
pub fn to_uppercase(s: &str) -> (res: String)
    ensures
        res@ == unicode_uppercase(s@),
        is_ascii_text(s@) ==> res@ == upper(s@),
{
    s.to_uppercase()
}

// ---------------------------------------------------------------------------
// Joining
// ---------------------------------------------------------------------------

/// `parts.join(sep)`.
pub open spec fn join(parts: Seq<Seq<char>>, sep: Seq<char>) -> Seq<char>
    decreases parts.len(),
{
    if parts.len() == 0 {
        Seq::empty()
    } else if parts.len() == 1 {
        parts[0]
    } else {
        join(parts.drop_last(), sep) + sep + parts.last()
    }
}

/// The views of a vector of strings.
pub open spec fn views(v: Seq<String>) -> Seq<Seq<char>> {
    v.map_values(|s: String| s@)
}

/// `parts.join(sep)`.
pub fn join_strings(parts: &Vec<String>, sep: &str) -> (res: String)
    ensures
        res@ == join(views(parts@), sep@),
{
    let mut res = String::new();
    let mut i: usize = 0;
    while i < parts.len()
        invariant
            i <= parts.len(),
            res@ == join(views(parts@).take(i as int), sep@),
        decreases parts.len() - i,
    {
        proof {
            assert(views(parts@).take(i + 1).drop_last() =~= views(parts@).take(i as int));
        }
        if i > 0 {
            res.append(sep);
        }
        res.append(parts[i].as_str());
        proof {
            if i == 0 {
                assert(res@ =~= join(views(parts@).take(1), sep@));
            }
        }
        i = i + 1;
    }
    proof {
        assert(views(parts@).take(parts.len() as int) =~= views(parts@));
    }
    res
}


/// A copy of a vector of strings.
pub fn clone_strings(v: &Vec<String>) -> (res: Vec<String>)
    ensures
        views(res@) == views(v@),
{
    let mut res: Vec<String> = Vec::new();
    let mut i: usize = 0;
    while i < v.len()
        invariant
            i <= v.len(),
            res.len() == i,
            forall|k: int| 0 <= k < i ==> #[trigger] res@[k]@ == v@[k]@,
        decreases v.len() - i,
    {
        res.push(v[i].clone());
        i = i + 1;
    }
    proof {
        assert(views(res@) =~= views(v@));
    }
    res
}


/// The value of a decimal digit character.
pub open spec fn digit_value(c: char) -> int {
    (c as u32) - ('0' as u32)
}

/// The value of an ASCII letter in an ISIN: `A` (or `a`) is 10, `Z` (or `z`) is 35.
pub open spec fn letter_value(c: char) -> int {
    if is_upper(c) {
        (c as u32) - ('A' as u32) + 10
    } else {
        (c as u32) - ('a' as u32) + 10
    }
}

pub fn digit_value_exec(c: char) -> (res: u32)
    requires
        is_digit(c),
    ensures
        res == digit_value(c),
        res <= 9,
{
    (c as u32) - ('0' as u32)
}

pub fn letter_value_exec(c: char) -> (res: u32)
    requires
        is_alpha(c),
    ensures
        res == letter_value(c),
        10 <= res <= 35,
{
    if is_upper_char(c) {
        (c as u32) - ('A' as u32) + 10
    } else {
        (c as u32) - ('a' as u32) + 10
    }
}


/// The concatenation of four strings.
pub fn concat4(a: &str, b: &str, c: &str, d: &str) -> (res: String)
    ensures
        res@ == a@ + b@ + c@ + d@,
{
    let mut res = a.to_owned();
    res.append(b);
    res.append(c);
    res.append(d);
    res
}

/// The view of an optional string.
pub open spec fn opt_str(o: Option<String>) -> Option<Seq<char>> {
    match o {
        Some(s) => Some(s@),
        None => None,
    }
}

/// The view of an optional string slice.
pub open spec fn opt_slice(o: Option<&str>) -> Option<Seq<char>> {
    match o {
        Some(s) => Some(s@),
        None => None,
    }
}

} // verus!
