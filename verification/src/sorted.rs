//! Lexicographic order on texts, and sorted lists without repeats.
use vstd::prelude::*;

use crate::text::views;

verus! {

/// `a < b` in the order of `str::cmp`: code point by code point, a proper
/// prefix first.
pub open spec fn lex_lt(a: Seq<char>, b: Seq<char>) -> bool
    decreases a.len(),
{
    if a.len() == 0 {
        b.len() > 0
    } else if b.len() == 0 {
        false
    } else if a[0] != b[0] {
        a[0] < b[0]
    } else {
        lex_lt(a.drop_first(), b.drop_first())
    }
}

/// Strictly increasing: sorted, and no text occurs twice.
pub open spec fn sorted_unique(s: Seq<Seq<char>>) -> bool {
    forall|i: int, j: int| 0 <= i < j < s.len() ==> lex_lt(#[trigger] s[i], #[trigger] s[j])
}

pub proof fn lemma_lex_irreflexive(a: Seq<char>)
    ensures
        !lex_lt(a, a),
    decreases a.len(),
{
    if a.len() > 0 {
        lemma_lex_irreflexive(a.drop_first());
    }
}

pub proof fn lemma_lex_asymmetric(a: Seq<char>, b: Seq<char>)
    requires
        lex_lt(a, b),
    ensures
        !lex_lt(b, a),
    decreases a.len(),
{
    if a.len() > 0 && b.len() > 0 && a[0] == b[0] {
        lemma_lex_asymmetric(a.drop_first(), b.drop_first());
    }
}

pub proof fn lemma_lex_transitive(a: Seq<char>, b: Seq<char>, c: Seq<char>)
    requires
        lex_lt(a, b),
        lex_lt(b, c),
    ensures
        lex_lt(a, c),
    decreases a.len(),
{
    if a.len() > 0 && b.len() > 0 && c.len() > 0 && a[0] == b[0] && b[0] == c[0] {
        lemma_lex_transitive(a.drop_first(), b.drop_first(), c.drop_first());
    }
}

pub proof fn lemma_lex_total(a: Seq<char>, b: Seq<char>)
    requires
        a != b,
    ensures
        lex_lt(a, b) || lex_lt(b, a),
    decreases a.len(),
{
    if a.len() > 0 && b.len() > 0 {
        if a[0] == b[0] {
            if a.drop_first() == b.drop_first() {
                assert(a =~= seq![a[0]] + a.drop_first());
                assert(b =~= seq![b[0]] + b.drop_first());
            }
            lemma_lex_total(a.drop_first(), b.drop_first());
        }
    } else if a.len() == 0 && b.len() == 0 {
        assert(a =~= b);
    }
}

/// `a < b` in the order of `str::cmp`.
pub fn lex_less(a: &Vec<char>, b: &Vec<char>) -> (res: bool)
    ensures
        res == lex_lt(a@, b@),
{
    let mut i: usize = 0;
    proof {
        assert(a@.skip(0) =~= a@);
        assert(b@.skip(0) =~= b@);
    }
    while i < a.len() && i < b.len() && a[i] == b[i]
        invariant
            i <= a.len(),
            i <= b.len(),
            lex_lt(a@, b@) == lex_lt(a@.skip(i as int), b@.skip(i as int)),
        decreases a.len() - i,
    {
        proof {
            assert(a@.skip(i as int).drop_first() =~= a@.skip(i + 1));
            assert(b@.skip(i as int).drop_first() =~= b@.skip(i + 1));
        }
        i = i + 1;
    }
    if i == a.len() {
        i < b.len()
    } else if i == b.len() {
        false
    } else {
        a[i] < b[i]
    }
}

/// Inserts `x` into a strictly increasing list, unless it is already there.
pub fn insert_sorted_unique(v: &mut Vec<String>, x: String)
    requires
        sorted_unique(views(old(v)@)),
    ensures
        sorted_unique(views(final(v)@)),
        views(final(v)@).to_set() == views(old(v)@).to_set().insert(x@),
        views(old(v)@).contains(x@) ==> final(v)@ == old(v)@,
{
    let xc = crate::text::chars_of(x.as_str());
    let mut k: usize = 0;
    let ghost s = views(v@);
    while k < v.len()
        invariant
            k <= v.len(),
            s == views(v@),
            xc@ == x@,
            forall|i: int| 0 <= i < k ==> lex_lt(#[trigger] s[i], x@),
        ensures
            k <= v.len(),
            forall|i: int| 0 <= i < k ==> lex_lt(#[trigger] s[i], x@),
            k < v.len() ==> !lex_lt(s[k as int], x@),
        decreases v.len() - k,
    {
        let vc = crate::text::chars_of(v[k].as_str());
        if !lex_less(&vc, &xc) {
            break;
        }
        k = k + 1;
    }
    if k < v.len() {
        let vc = crate::text::chars_of(v[k].as_str());
        if crate::text::chars_eq(&vc, &xc) {
            proof {
                assert(s[k as int] == x@);
                assert(s.to_set().insert(x@) =~= s.to_set());
            }
            return;
        }
    }
    proof {
        if k < s.len() {
            lemma_lex_total(s[k as int], x@);
            assert(lex_lt(x@, s[k as int]));
        }
        assert forall|j: int| k <= j < s.len() implies lex_lt(x@, #[trigger] s[j]) by {
            if j > k {
                lemma_lex_transitive(x@, s[k as int], s[j]);
            }
        }
    }
    v.insert(k, x);
    proof {
        let t = views(v@);
        assert(t =~= s.insert(k as int, xc@));
        assert forall|i: int, j: int| 0 <= i < j < t.len() implies lex_lt(
            #[trigger] t[i],
            #[trigger] t[j],
        ) by {
            if j < k {
            } else if i < k && j == k {
            } else if i < k && j > k {
                lemma_lex_transitive(s[i], x@, s[j - 1]);
            } else if i == k {
            } else {
                assert(lex_lt(s[i - 1], s[j - 1]));
            }
        }
        assert forall|y: Seq<char>| t.to_set().contains(y) == s.to_set().insert(x@).contains(
            y,
        ) by {
            if t.to_set().contains(y) {
                let i = choose|i: int| 0 <= i < t.len() && t[i] == y;
                if i < k {
                    assert(s[i] == y);
                } else if i > k {
                    assert(s[i - 1] == y);
                }
            }
            if s.to_set().contains(y) {
                let i = choose|i: int| 0 <= i < s.len() && s[i] == y;
                if i < k {
                    assert(t[i] == y);
                } else {
                    assert(t[i + 1] == y);
                }
            }
            if y == x@ {
                assert(t[k as int] == y);
            }
        }
        assert(t.to_set() =~= s.to_set().insert(x@));
        if s.contains(x@) {
            let i = choose|i: int| 0 <= i < s.len() && s[i] == x@;
            if i < k {
                lemma_lex_irreflexive(x@);
            } else {
                lemma_lex_irreflexive(x@);
            }
        }
    }
}

/// The texts of `items` in increasing order, each once.
pub fn sorted_dedup(items: Vec<String>) -> (res: Vec<String>)
    ensures
        sorted_unique(views(res@)),
        views(res@).to_set() == views(items@).to_set(),
        views(res@) == sorted_list(views(items@).to_set()),
{
    let mut res: Vec<String> = Vec::new();
    let mut i: usize = 0;
    proof {
        assert(views(res@).to_set() =~= views(items@).take(0).to_set());
    }
    while i < items.len()
        invariant
            i <= items.len(),
            sorted_unique(views(res@)),
            views(res@).to_set() == views(items@).take(i as int).to_set(),
        decreases items.len() - i,
    {
        insert_sorted_unique(&mut res, items[i].clone());
        proof {
            assert(views(items@).take(i + 1) =~= views(items@).take(i as int).push(items@[i as int]@));
            views(items@).take(i as int).lemma_push_to_set_commute(items@[i as int]@);
        }
        i = i + 1;
    }
    proof {
        assert(views(items@).take(items.len() as int) =~= views(items@));
        lemma_is_sorted_list(views(res@));
    }
    res
}


/// The texts of a finite set in increasing order, each once.
pub open spec fn sorted_list(s: Set<Seq<char>>) -> Seq<Seq<char>> {
    choose|o: Seq<Seq<char>>| sorted_unique(o) && o.to_set() == s
}

proof fn lemma_sorted_first_is_least(a: Seq<Seq<char>>, x: Seq<char>)
    requires
        sorted_unique(a),
        a.len() > 0,
        a.to_set().contains(x),
    ensures
        x == a[0] || lex_lt(a[0], x),
{
    let i = choose|i: int| 0 <= i < a.len() && a[i] == x;
    if i > 0 {
        assert(lex_lt(a[0], a[i]));
    }
}

/// Two strictly increasing lists with the same elements are the same list.
pub proof fn lemma_sorted_unique_determined(a: Seq<Seq<char>>, b: Seq<Seq<char>>)
    requires
        sorted_unique(a),
        sorted_unique(b),
        a.to_set() == b.to_set(),
    ensures
        a == b,
    decreases a.len(),
{
    if a.len() == 0 {
        if b.len() > 0 {
            assert(b.to_set().contains(b[0]));
        }
        assert(a =~= b);
    } else {
        assert(a.to_set().contains(a[0]));
        assert(b.len() > 0);
        assert(b.to_set().contains(b[0]));
        lemma_sorted_first_is_least(a, b[0]);
        lemma_sorted_first_is_least(b, a[0]);
        if a[0] != b[0] {
            lemma_lex_asymmetric(a[0], b[0]);
        }
        let ra = a.drop_first();
        let rb = b.drop_first();
        assert(sorted_unique(ra)) by {
            assert forall|i: int, j: int| 0 <= i < j < ra.len() implies lex_lt(
                #[trigger] ra[i],
                #[trigger] ra[j],
            ) by {
                assert(lex_lt(a[i + 1], a[j + 1]));
            }
        }
        assert(sorted_unique(rb)) by {
            assert forall|i: int, j: int| 0 <= i < j < rb.len() implies lex_lt(
                #[trigger] rb[i],
                #[trigger] rb[j],
            ) by {
                assert(lex_lt(b[i + 1], b[j + 1]));
            }
        }
        assert forall|y: Seq<char>| ra.to_set().contains(y) implies rb.to_set().contains(y) by {
            let i = choose|i: int| 0 <= i < ra.len() && ra[i] == y;
            assert(lex_lt(a[0], a[i + 1]));
            assert(b.to_set().contains(y)) by {
                assert(a.to_set().contains(a[i + 1]));
            }
            let j = choose|j: int| 0 <= j < b.len() && b[j] == y;
            if j == 0 {
                lemma_lex_irreflexive(y);
            }
            assert(rb[j - 1] == y);
        }
        assert forall|y: Seq<char>| rb.to_set().contains(y) implies ra.to_set().contains(y) by {
            let i = choose|i: int| 0 <= i < rb.len() && rb[i] == y;
            assert(lex_lt(b[0], b[i + 1]));
            assert(a.to_set().contains(y)) by {
                assert(b.to_set().contains(b[i + 1]));
            }
            let j = choose|j: int| 0 <= j < a.len() && a[j] == y;
            if j == 0 {
                lemma_lex_irreflexive(y);
            }
            assert(ra[j - 1] == y);
        }
        assert(ra.to_set() =~= rb.to_set());
        lemma_sorted_unique_determined(ra, rb);
        assert(a =~= seq![a[0]] + ra);
        assert(b =~= seq![b[0]] + rb);
    }
}

/// A strictly increasing list is the sorted list of its elements.
pub proof fn lemma_is_sorted_list(a: Seq<Seq<char>>)
    requires
        sorted_unique(a),
    ensures
        a == sorted_list(a.to_set()),
{
    let o = sorted_list(a.to_set());
    assert(sorted_unique(o) && o.to_set() == a.to_set());
    lemma_sorted_unique_determined(a, o);
}

proof fn lemma_insert_sorted(o: Seq<Seq<char>>, x: Seq<char>) -> (r: Seq<Seq<char>>)
    requires
        sorted_unique(o),
        !o.to_set().contains(x),
    ensures
        sorted_unique(r),
        r.to_set() == o.to_set().insert(x),
    decreases o.len(),
{
    if o.len() == 0 {
        let r = seq![x];
        assert(r.to_set() =~= o.to_set().insert(x)) by {
            assert(r[0] == x);
        }
        r
    } else {
        assert(o.to_set().contains(o[0]));
        lemma_lex_total(x, o[0]);
        if lex_lt(x, o[0]) {
            let r = seq![x] + o;
            assert forall|i: int, j: int| 0 <= i < j < r.len() implies lex_lt(#[trigger] r[i], #[trigger] r[j]) by {
                if i == 0 {
                    if j > 1 {
                        assert(lex_lt(o[0], o[j - 1]));
                        lemma_lex_transitive(x, o[0], o[j - 1]);
                    }
                } else {
                    assert(lex_lt(o[i - 1], o[j - 1]));
                }
            }
            assert(r.to_set() =~= o.to_set().insert(x)) by {
                assert forall|y: Seq<char>| r.to_set().contains(y) implies o.to_set().insert(x).contains(y) by {
                    let k = choose|k: int| 0 <= k < r.len() && r[k] == y;
                    if k > 0 {
                        assert(o[k - 1] == y);
                    }
                }
                assert forall|y: Seq<char>| o.to_set().insert(x).contains(y) implies r.to_set().contains(y) by {
                    if y == x {
                        assert(r[0] == x);
                    } else {
                        let k = choose|k: int| 0 <= k < o.len() && o[k] == y;
                        assert(r[k + 1] == y);
                    }
                }
            }
            r
        } else {
            let rest = o.drop_first();
            assert(sorted_unique(rest)) by {
                assert forall|i: int, j: int| 0 <= i < j < rest.len() implies lex_lt(#[trigger] rest[i], #[trigger] rest[j]) by {
                    assert(lex_lt(o[i + 1], o[j + 1]));
                }
            }
            assert(!rest.to_set().contains(x)) by {
                if rest.to_set().contains(x) {
                    let k = choose|k: int| 0 <= k < rest.len() && rest[k] == x;
                    assert(o[k + 1] == x);
                    assert(o.to_set().contains(o[k + 1]));
                }
            }
            let t = lemma_insert_sorted(rest, x);
            let r = seq![o[0]] + t;
            assert forall|i: int, j: int| 0 <= i < j < r.len() implies lex_lt(#[trigger] r[i], #[trigger] r[j]) by {
                if i == 0 {
                    let y = t[j - 1];
                    assert(t.to_set().contains(y));
                    if y != x {
                        let k = choose|k: int| 0 <= k < rest.len() && rest[k] == y;
                        assert(lex_lt(o[0], o[k + 1]));
                    }
                } else {
                    assert(lex_lt(t[i - 1], t[j - 1]));
                }
            }
            assert(r.to_set() =~= o.to_set().insert(x)) by {
                assert forall|y: Seq<char>| r.to_set().contains(y) implies o.to_set().insert(x).contains(y) by {
                    let k = choose|k: int| 0 <= k < r.len() && r[k] == y;
                    if k > 0 {
                        assert(t.to_set().contains(t[k - 1]));
                        if t[k - 1] != x {
                            let m = choose|m: int| 0 <= m < rest.len() && rest[m] == t[k - 1];
                            assert(o[m + 1] == y);
                        }
                    }
                }
                assert forall|y: Seq<char>| o.to_set().insert(x).contains(y) implies r.to_set().contains(y) by {
                    if y == o[0] {
                        assert(r[0] == y);
                    } else {
                        if y != x {
                            let k = choose|k: int| 0 <= k < o.len() && o[k] == y;
                            assert(rest[k - 1] == y);
                            assert(rest.to_set().contains(y));
                        }
                        assert(t.to_set().contains(y));
                        let m = choose|m: int| 0 <= m < t.len() && t[m] == y;
                        assert(r[m + 1] == y);
                    }
                }
            }
            r
        }
    }
}

proof fn lemma_sorted_witness(s: Seq<Seq<char>>) -> (o: Seq<Seq<char>>)
    ensures
        sorted_unique(o),
        o.to_set() == s.to_set(),
    decreases s.len(),
{
    if s.len() == 0 {
        let o = Seq::<Seq<char>>::empty();
        assert(o.to_set() =~= s.to_set());
        o
    } else {
        let init = s.drop_last();
        let x = s.last();
        let o = lemma_sorted_witness(init);
        assert(s =~= init.push(x));
        init.lemma_push_to_set_commute(x);
        if o.to_set().contains(x) {
            assert(o.to_set().insert(x) =~= o.to_set());
            o
        } else {
            lemma_insert_sorted(o, x)
        }
    }
}

/// The sorted list of the elements of a list is strictly increasing and has
/// the same elements.
pub proof fn lemma_sorted_list_of(s: Seq<Seq<char>>)
    ensures
        sorted_unique(sorted_list(s.to_set())),
        sorted_list(s.to_set()).to_set() == s.to_set(),
{
    let o = lemma_sorted_witness(s);
    assert(sorted_unique(o) && o.to_set() == s.to_set());
}

} // verus!
