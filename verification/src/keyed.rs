//! Lists of JSON values kept in the order of a text key (and a second text
//! key for ties), stable like `slice::sort_by`.
use vstd::prelude::*;

use crate::json::{items_view, lemma_items_view_push, Json, JsonView};
use crate::sorted::{
    lemma_lex_asymmetric, lemma_lex_irreflexive, lemma_lex_total, lemma_lex_transitive, lex_less, lex_lt,
};

verus! {

/// A sort key: a text, and a second text that breaks ties.
pub type SortKey = (Seq<char>, Seq<char>);

/// `a` comes before `b`: by the first text, then by the second.
pub open spec fn key_lt(a: SortKey, b: SortKey) -> bool {
    lex_lt(a.0, b.0) || (a.0 == b.0 && lex_lt(a.1, b.1))
}

/// Inserts `x` after every entry whose key is not greater than its own.
pub open spec fn insert_keyed(sorted: Seq<(SortKey, JsonView)>, x: (SortKey, JsonView)) -> Seq<
    (SortKey, JsonView),
>
    decreases sorted.len(),
{
    if sorted.len() == 0 {
        seq![x]
    } else if key_lt(x.0, sorted.last().0) {
        insert_keyed(sorted.drop_last(), x).push(sorted.last())
    } else {
        sorted.push(x)
    }
}

/// The entries ordered by key; entries with equal keys keep their order.
pub open spec fn sort_keyed(s: Seq<(SortKey, JsonView)>) -> Seq<(SortKey, JsonView)>
    decreases s.len(),
{
    if s.len() == 0 {
        s
    } else {
        insert_keyed(sort_keyed(s.drop_last()), s.last())
    }
}

/// The values of keyed entries.
pub open spec fn keyed_values(s: Seq<(SortKey, JsonView)>) -> Seq<JsonView> {
    s.map_values(|e: (SortKey, JsonView)| e.1)
}

/// A key with no second text.
pub open spec fn single_key(k: Seq<char>) -> SortKey {
    (k, Seq::empty())
}

proof fn lemma_insert_keyed_at(s: Seq<(SortKey, JsonView)>, x: (SortKey, JsonView), p: int)
    requires
        0 <= p <= s.len(),
        forall|q: int| p <= q < s.len() ==> key_lt(x.0, #[trigger] s[q].0),
        p > 0 ==> !key_lt(x.0, s[p - 1].0),
    ensures
        insert_keyed(s, x) == s.take(p).push(x) + s.skip(p),
    decreases s.len(),
{
    if s.len() == 0 {
        assert(s.take(p).push(x) + s.skip(p) =~= seq![x]);
    } else if p == s.len() {
        assert(s.take(p) =~= s);
        assert(s.take(p).push(x) + s.skip(p) =~= s.push(x));
    } else {
        let init = s.drop_last();
        assert(key_lt(x.0, s[s.len() - 1].0));
        assert forall|q: int| p <= q < init.len() implies key_lt(x.0, #[trigger] init[q].0) by {
            assert(init[q] == s[q]);
        }
        if p > 0 {
            assert(init[p - 1] == s[p - 1]);
        }
        lemma_insert_keyed_at(init, x, p);
        assert(insert_keyed(s, x) == insert_keyed(init, x).push(s.last()));
        assert(init.take(p) =~= s.take(p));
        assert(init.skip(p).push(s.last()) =~= s.skip(p));
        assert((init.take(p).push(x) + init.skip(p)).push(s.last()) =~= s.take(p).push(x) + s.skip(
            p,
        ));
    }
}

fn key_less(a: &(Vec<char>, Vec<char>), b: &(Vec<char>, Vec<char>)) -> (res: bool)
    ensures
        res == key_lt((a.0@, a.1@), (b.0@, b.1@)),
{
    if lex_less(&a.0, &b.0) {
        true
    } else if crate::text::chars_eq(&a.0, &b.0) {
        lex_less(&a.1, &b.1)
    } else {
        false
    }
}

/// JSON values with sort keys, kept in key order.
pub struct KeyedList {
    keys: Vec<(Vec<char>, Vec<char>)>,
    values: Vec<Json>,
}

impl KeyedList {
    pub closed spec fn entries(self) -> Seq<(SortKey, JsonView)> {
        Seq::new(
            self.keys@.len(),
            |i: int| ((self.keys@[i].0@, self.keys@[i].1@), items_view(self.values@)[i]),
        )
    }

    pub closed spec fn well_formed(self) -> bool {
        &&& self.keys@.len() == self.values@.len()
        &&& items_view(self.values@).len() == self.values@.len()
    }

    pub fn new() -> (res: Self)
        ensures
            res.well_formed(),
            res.entries() == Seq::<(SortKey, JsonView)>::empty(),
    {
        let res = KeyedList { keys: Vec::new(), values: Vec::new() };
        proof {
            assert(res.entries() =~= Seq::<(SortKey, JsonView)>::empty());
        }
        res
    }

    /// Adds a value under a key, after the entries whose keys are not
    /// greater.
    pub fn insert(&mut self, first: &str, second: &str, value: Json)
        requires
            old(self).well_formed(),
        ensures
            final(self).well_formed(),
            final(self).entries() == insert_keyed(
                old(self).entries(),
                ((first@, second@), value@),
            ),
    {
        let key = (crate::text::chars_of(first), crate::text::chars_of(second));
        let ghost s = self.entries();
        let ghost x: (SortKey, JsonView) = ((first@, second@), value@);
        let mut p: usize = self.keys.len();
        while p > 0 && key_less(&key, &self.keys[p - 1])
            invariant
                p <= self.keys.len(),
                self.well_formed(),
                s == self.entries(),
                key.0@ == first@,
                key.1@ == second@,
                x == ((first@, second@), value@),
                forall|q: int| p <= q < s.len() ==> key_lt(x.0, #[trigger] s[q].0),
            decreases p,
        {
            p = p - 1;
            proof {
                assert(s[p as int].0 == (self.keys@[p as int].0@, self.keys@[p as int].1@));
                assert(x.0 == (key.0@, key.1@));
            }
        }
        proof {
            lemma_insert_keyed_at(s, x, p as int);
            lemma_items_view_index(self.values@);
        }
        let ghost old_values = self.values@;
        self.keys.insert(p, key);
        self.values.insert(p, value);
        proof {
            lemma_items_view_index(self.values@);
            assert(self.entries() =~= s.take(p as int).push(x) + s.skip(p as int)) by {
                assert forall|i: int| 0 <= i < self.keys@.len() implies #[trigger] self.entries()[i]
                    == (s.take(p as int).push(x) + s.skip(p as int))[i] by {
                    if i < p {
                        assert(self.values@[i] == old_values[i]);
                    } else if i > p {
                        assert(self.values@[i] == old_values[i - 1]);
                    }
                }
            }
        }
    }

    /// The values in key order, as a JSON array.
    pub fn into_array(self) -> (res: Json)
        requires
            self.well_formed(),
        ensures
            res@ == JsonView::Array(keyed_values(self.entries())),
    {
        proof {
            lemma_items_view_index(self.values@);
            assert(items_view(self.values@) =~= keyed_values(self.entries()));
        }
        Json::Array(self.values)
    }

    /// The values in key order.
    pub fn into_values(self) -> (res: Vec<Json>)
        requires
            self.well_formed(),
        ensures
            items_view(res@) == keyed_values(self.entries()),
    {
        proof {
            lemma_items_view_index(self.values@);
            assert(items_view(self.values@) =~= keyed_values(self.entries()));
        }
        self.values
    }

    pub fn len(&self) -> (res: usize)
        requires
            self.well_formed(),
        ensures
            res == self.entries().len(),
    {
        self.keys.len()
    }
}

pub proof fn lemma_items_view_index(v: Seq<Json>)
    ensures
        items_view(v).len() == v.len(),
        forall|k: int| 0 <= k < v.len() ==> #[trigger] items_view(v)[k] == v[k]@,
    decreases v.len(),
{
    if v.len() > 0 {
        let t = v.subrange(1, v.len() as int);
        lemma_items_view_index(t);
        assert forall|k: int| 0 <= k < v.len() implies #[trigger] items_view(v)[k] == v[k]@ by {
            if k > 0 {
                assert(v[k] == t[k - 1]);
            }
        }
    }
}

/// The views of two lists one after the other are the views of the joined
/// list.
pub proof fn lemma_items_view_concat(a: Seq<Json>, b: Seq<Json>)
    ensures
        items_view(a + b) == items_view(a) + items_view(b),
{
    lemma_items_view_index(a);
    lemma_items_view_index(b);
    lemma_items_view_index(a + b);
    assert(items_view(a + b) =~= items_view(a) + items_view(b)) by {
        assert forall|k: int| 0 <= k < (a + b).len() implies #[trigger] items_view(a + b)[k] == (
        items_view(a) + items_view(b))[k] by {
            if k < a.len() {
                assert((a + b)[k] == a[k]);
            } else {
                assert((a + b)[k] == b[k - a.len()]);
            }
        }
    }
}

pub proof fn lemma_insert_keyed_len(s: Seq<(SortKey, JsonView)>, x: (SortKey, JsonView))
    ensures
        insert_keyed(s, x).len() == s.len() + 1,
    decreases s.len(),
{
    if s.len() > 0 && key_lt(x.0, s.last().0) {
        lemma_insert_keyed_len(s.drop_last(), x);
    }
}

pub proof fn lemma_sort_keyed_len(s: Seq<(SortKey, JsonView)>)
    ensures
        sort_keyed(s).len() == s.len(),
    decreases s.len(),
{
    if s.len() > 0 {
        lemma_sort_keyed_len(s.drop_last());
        lemma_insert_keyed_len(sort_keyed(s.drop_last()), s.last());
    }
}

// ---------------------------------------------------------------------------
// The order of a keyed list
// ---------------------------------------------------------------------------

/// No entry's key comes before the key of an earlier entry.
pub open spec fn keys_ordered(s: Seq<(SortKey, JsonView)>) -> bool {
    forall|i: int, j: int| 0 <= i < j < s.len() ==> !key_lt(#[trigger] s[j].0, #[trigger] s[i].0)
}

/// Every key of the entries is at most `k`.
pub open spec fn keys_at_most(s: Seq<(SortKey, JsonView)>, k: SortKey) -> bool {
    forall|i: int| 0 <= i < s.len() ==> !key_lt(k, #[trigger] s[i].0)
}

proof fn lemma_key_lt_asymmetric(a: SortKey, b: SortKey)
    requires
        key_lt(a, b),
    ensures
        !key_lt(b, a),
{
    if lex_lt(a.0, b.0) {
        lemma_lex_asymmetric(a.0, b.0);
        lemma_lex_irreflexive(a.0);
    } else {
        lemma_lex_irreflexive(a.0);
        lemma_lex_asymmetric(a.1, b.1);
    }
}

/// "At most" is transitive.
proof fn lemma_key_le_transitive(a: SortKey, b: SortKey, c: SortKey)
    requires
        !key_lt(b, a),
        !key_lt(c, b),
    ensures
        !key_lt(c, a),
{
    if a.0 != b.0 {
        lemma_lex_total(a.0, b.0);
    }
    if b.0 != c.0 {
        lemma_lex_total(b.0, c.0);
    }
    if a.1 != b.1 {
        lemma_lex_total(a.1, b.1);
    }
    if b.1 != c.1 {
        lemma_lex_total(b.1, c.1);
    }
    if key_lt(c, a) {
        if lex_lt(c.0, a.0) {
            if lex_lt(a.0, b.0) {
                lemma_lex_transitive(c.0, a.0, b.0);
                if lex_lt(b.0, c.0) {
                    lemma_lex_asymmetric(c.0, b.0);
                }
            } else {
                assert(a.0 == b.0);
                if lex_lt(b.0, c.0) {
                    lemma_lex_asymmetric(c.0, a.0);
                } else {
                    assert(b.0 == c.0);
                    lemma_lex_irreflexive(c.0);
                }
            }
        } else {
            assert(c.0 == a.0 && lex_lt(c.1, a.1));
            if lex_lt(a.0, b.0) {
                if lex_lt(b.0, c.0) {
                    lemma_lex_transitive(a.0, b.0, c.0);
                    lemma_lex_irreflexive(a.0);
                } else {
                    assert(b.0 == c.0);
                    lemma_lex_asymmetric(a.0, b.0);
                }
            } else {
                assert(a.0 == b.0 && b.0 == c.0);
                if lex_lt(a.1, b.1) {
                    lemma_lex_transitive(c.1, a.1, b.1);
                    lemma_lex_asymmetric(c.1, b.1);
                } else {
                    assert(a.1 == b.1);
                    lemma_lex_asymmetric(c.1, a.1);
                }
            }
        }
    }
}

proof fn lemma_insert_keyed_at_most(s: Seq<(SortKey, JsonView)>, x: (SortKey, JsonView), k: SortKey)
    requires
        keys_at_most(s, k),
        !key_lt(k, x.0),
    ensures
        keys_at_most(insert_keyed(s, x), k),
    decreases s.len(),
{
    if s.len() == 0 {
    } else if key_lt(x.0, s.last().0) {
        let init = s.drop_last();
        assert forall|i: int| 0 <= i < init.len() implies !key_lt(k, #[trigger] init[i].0) by {
            assert(init[i] == s[i]);
        }
        lemma_insert_keyed_at_most(init, x, k);
        lemma_insert_keyed_len(init, x);
        let r = insert_keyed(init, x);
        assert(s.last() == s[s.len() - 1]);
        assert forall|i: int| 0 <= i < r.push(s.last()).len() implies !key_lt(
            k,
            #[trigger] r.push(s.last())[i].0,
        ) by {
            if i < r.len() {
                assert(r.push(s.last())[i] == r[i]);
            }
        }
    } else {
        assert forall|i: int| 0 <= i < s.push(x).len() implies !key_lt(k, #[trigger] s.push(x)[i].0) by {
            if i < s.len() {
                assert(s.push(x)[i] == s[i]);
            }
        }
    }
}

proof fn lemma_insert_keyed_ordered(s: Seq<(SortKey, JsonView)>, x: (SortKey, JsonView))
    requires
        keys_ordered(s),
    ensures
        keys_ordered(insert_keyed(s, x)),
        insert_keyed(s, x).to_multiset() == s.to_multiset().insert(x),
    decreases s.len(),
{
    broadcast use vstd::seq_lib::group_to_multiset_ensures;

    if s.len() == 0 {
        assert(seq![x] =~= Seq::<(SortKey, JsonView)>::empty().push(x));
    } else if key_lt(x.0, s.last().0) {
        let init = s.drop_last();
        let last = s.last();
        assert(s =~= init.push(last));
        assert(keys_ordered(init)) by {
            assert forall|i: int, j: int| 0 <= i < j < init.len() implies !key_lt(
                #[trigger] init[j].0,
                #[trigger] init[i].0,
            ) by {
                assert(init[i] == s[i] && init[j] == s[j]);
            }
        }
        lemma_insert_keyed_ordered(init, x);
        assert(keys_at_most(init, last.0)) by {
            assert forall|i: int| 0 <= i < init.len() implies !key_lt(last.0, #[trigger] init[i].0) by {
                assert(init[i] == s[i]);
                assert(last == s[s.len() - 1]);
            }
        }
        lemma_key_lt_asymmetric(x.0, last.0);
        lemma_insert_keyed_at_most(init, x, last.0);
        lemma_insert_keyed_len(init, x);
        let r = insert_keyed(init, x);
        let out = r.push(last);
        assert forall|i: int, j: int| 0 <= i < j < out.len() implies !key_lt(
            #[trigger] out[j].0,
            #[trigger] out[i].0,
        ) by {
            assert(out[i] == r[i]);
            if j < r.len() {
                assert(out[j] == r[j]);
            } else {
                assert(out[j] == last);
            }
        }
        assert(out.to_multiset() =~= s.to_multiset().insert(x));
    } else {
        let last = s.last();
        assert(last == s[s.len() - 1]);
        let out = s.push(x);
        assert forall|i: int, j: int| 0 <= i < j < out.len() implies !key_lt(
            #[trigger] out[j].0,
            #[trigger] out[i].0,
        ) by {
            assert(out[i] == s[i]);
            if j < s.len() {
                assert(out[j] == s[j]);
            } else {
                assert(out[j] == x);
                if i < s.len() - 1 {
                    lemma_key_le_transitive(s[i].0, last.0, x.0);
                }
            }
        }
    }
}

/// A keyed list comes out in the order of its keys and holds every entry it
/// was given, as often as it was given: the listings that the command line
/// sorts (holdings, watchlist, search results, alerts, savings plans) lose
/// and repeat nothing.
pub proof fn keyed_sort_orders_by_key_and_keeps_every_entry(s: Seq<(SortKey, JsonView)>)
    ensures
        keys_ordered(sort_keyed(s)),
        sort_keyed(s).to_multiset() == s.to_multiset(),
    decreases s.len(),
{
    broadcast use vstd::seq_lib::group_to_multiset_ensures;

    if s.len() == 0 {
        assert(s.to_multiset() =~= sort_keyed(s).to_multiset());
    } else {
        keyed_sort_orders_by_key_and_keeps_every_entry(s.drop_last());
        lemma_insert_keyed_ordered(sort_keyed(s.drop_last()), s.last());
        assert(s =~= s.drop_last().push(s.last()));
        assert(sort_keyed(s).to_multiset() =~= s.to_multiset());
    }
}

} // verus!
