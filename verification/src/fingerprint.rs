//! Fingerprints of normalized query inputs: the input without its page
//! cursor, with object keys in a canonical order, hashed.
use vstd::prelude::*;

use crate::dpop::{sha256_digest, sha256_of_utf8};
use crate::json::{
    items_view, json_text, json_view, compact_json_text, lemma_items_view_push, lemma_members_view_push, members_view,
    ArrayBuilder, Json, JsonView, ObjectBuilder,
};
use crate::sorted::{
    lemma_is_sorted_list, lemma_lex_irreflexive, lemma_lex_total, lemma_lex_transitive, lex_less,
    lex_lt, sorted_list, sorted_unique,
};

verus! {

// ---------------------------------------------------------------------------
// Canonical form
// ---------------------------------------------------------------------------

/// The keys of members, in order.
pub open spec fn member_keys(ms: Seq<(Seq<char>, JsonView)>) -> Seq<Seq<char>> {
    ms.map_values(|m: (Seq<char>, JsonView)| m.0)
}

/// The value of the last member with the key, as a map built from the
/// members in order keeps it; null where there is none.
pub open spec fn last_value(ms: Seq<(Seq<char>, JsonView)>, key: Seq<char>) -> JsonView
    decreases ms.len(),
{
    if ms.len() == 0 {
        JsonView::Null
    } else if ms.last().0 == key {
        ms.last().1
    } else {
        last_value(ms.drop_last(), key)
    }
}

/// An object's members as a map holds them: each key once, in increasing
/// order, with the value its last member gave it.
pub open spec fn sorted_members(ms: Seq<(Seq<char>, JsonView)>) -> Seq<(Seq<char>, JsonView)> {
    sorted_list(member_keys(ms).to_set()).map_values(|k: Seq<char>| (k, last_value(ms, k)))
}

/// The canonical form of a value: every object, at any depth, with its keys
/// sorted and each key once.
pub open spec fn canonical(j: JsonView) -> JsonView
    decreases j, 0int,
{
    match j {
        JsonView::Array(items) => JsonView::Array(canonical_items(items)),
        JsonView::Object(ms) => JsonView::Object(sorted_members(canonical_members(ms))),
        _ => j,
    }
}

pub open spec fn canonical_items(items: Seq<JsonView>) -> Seq<JsonView>
    decreases items, 1int,
{
    if items.len() == 0 {
        Seq::empty()
    } else {
        seq![canonical(items[0])] + canonical_items(items.subrange(1, items.len() as int))
    }
}

pub open spec fn canonical_members(ms: Seq<(Seq<char>, JsonView)>) -> Seq<(Seq<char>, JsonView)>
    decreases ms, 1int,
{
    if ms.len() == 0 {
        Seq::empty()
    } else {
        seq![(ms[0].0, canonical(ms[0].1))] + canonical_members(ms.subrange(1, ms.len() as int))
    }
}

pub proof fn lemma_canonical_items_index(s: Seq<JsonView>)
    ensures
        canonical_items(s).len() == s.len(),
        forall|k: int| 0 <= k < s.len() ==> #[trigger] canonical_items(s)[k] == canonical(s[k]),
    decreases s.len(),
{
    if s.len() > 0 {
        let t = s.subrange(1, s.len() as int);
        lemma_canonical_items_index(t);
        assert forall|k: int| 0 <= k < s.len() implies #[trigger] canonical_items(s)[k] == canonical(
            s[k],
        ) by {
            if k > 0 {
                assert(s[k] == t[k - 1]);
            }
        }
    }
}

pub proof fn lemma_canonical_members_index(s: Seq<(Seq<char>, JsonView)>)
    ensures
        canonical_members(s).len() == s.len(),
        forall|k: int|
            0 <= k < s.len() ==> #[trigger] canonical_members(s)[k] == (s[k].0, canonical(s[k].1)),
    decreases s.len(),
{
    if s.len() > 0 {
        let t = s.subrange(1, s.len() as int);
        lemma_canonical_members_index(t);
        assert forall|k: int| 0 <= k < s.len() implies #[trigger] canonical_members(s)[k] == (
            s[k].0,
            canonical(s[k].1),
        ) by {
            if k > 0 {
                assert(s[k] == t[k - 1]);
            }
        }
    }
}

proof fn lemma_canonical_items_push(s: Seq<JsonView>, x: JsonView)
    ensures
        canonical_items(s.push(x)) == canonical_items(s).push(canonical(x)),
{
    lemma_canonical_items_index(s);
    lemma_canonical_items_index(s.push(x));
    assert(canonical_items(s.push(x)) =~= canonical_items(s).push(canonical(x)));
}

proof fn lemma_canonical_members_push(s: Seq<(Seq<char>, JsonView)>, x: (Seq<char>, JsonView))
    ensures
        canonical_members(s.push(x)) == canonical_members(s).push((x.0, canonical(x.1))),
{
    lemma_canonical_members_index(s);
    lemma_canonical_members_index(s.push(x));
    assert(canonical_members(s.push(x)) =~= canonical_members(s).push((x.0, canonical(x.1))));
}

/// The keys of stored members, as texts.
pub open spec fn stored_keys(v: Seq<(String, Json)>) -> Seq<Seq<char>> {
    v.map_values(|m: (String, Json)| m.0@)
}

/// Stored members whose keys increase strictly, each holding the last value
/// `ms` gives its key, and holding exactly the keys of `ms`.
pub open spec fn holds_sorted_members(v: Seq<(String, Json)>, ms: Seq<(Seq<char>, JsonView)>) -> bool {
    &&& sorted_unique(stored_keys(v))
    &&& stored_keys(v).to_set() == member_keys(ms).to_set()
    &&& forall|k: int| 0 <= k < v.len() ==> json_view(#[trigger] v[k].1) == last_value(ms, v[k].0@)
}

/// Adds a member to stored sorted members: a key already there takes the
/// new value, a new key goes to its place.
fn insert_member(out: &mut Vec<(String, Json)>, key: String, value: Json, Ghost(ms): Ghost<
    Seq<(Seq<char>, JsonView)>,
>)
    requires
        holds_sorted_members(old(out)@, ms),
    ensures
        holds_sorted_members(final(out)@, ms.push((key@, value@))),
{
    let ghost s = stored_keys(out@);
    let ghost ms2 = ms.push((key@, value@));
    let kc = crate::text::chars_of(key.as_str());
    let mut k: usize = 0;
    while k < out.len()
        invariant
            k <= out.len(),
            s == stored_keys(out@),
            kc@ == key@,
            forall|i: int| 0 <= i < k ==> lex_lt(#[trigger] s[i], key@),
        ensures
            k <= out.len(),
            forall|i: int| 0 <= i < k ==> lex_lt(#[trigger] s[i], key@),
            k < out.len() ==> !lex_lt(s[k as int], key@),
        decreases out.len() - k,
    {
        let oc = crate::text::chars_of(out[k].0.as_str());
        if !lex_less(&oc, &kc) {
            break;
        }
        k = k + 1;
    }
    proof {
        assert forall|key2: Seq<char>| key2 != key@ implies last_value(ms2, key2) == last_value(
            ms,
            key2,
        ) by {
            assert(ms2.drop_last() =~= ms);
        }
        assert(last_value(ms2, key@) == value@) by {
            assert(ms2.last() == (key@, value@));
        }
        assert(member_keys(ms2) =~= member_keys(ms).push(key@));
        member_keys(ms).lemma_push_to_set_commute(key@);
    }
    let mut same = false;
    if k < out.len() {
        let oc = crate::text::chars_of(out[k].0.as_str());
        same = crate::text::chars_eq(&oc, &kc);
    }
    let ghost old_out = out@;
    if same {
        let _ = out.remove(k);
        out.insert(k, (key, value));
        proof {
            assert(s[k as int] == key@);
            assert(stored_keys(out@) =~= s);
            assert(s.to_set().insert(key@) =~= s.to_set());
            assert forall|i: int| 0 <= i < out@.len() implies json_view(#[trigger] out@[i].1)
                == last_value(ms2, out@[i].0@) by {
                if i != k {
                    assert(out@[i] == old_out[i]);
                    assert(stored_keys(old_out)[i] == old_out[i].0@);
                    if old_out[i].0@ == key@ {
                        lemma_lex_irreflexive(key@);
                        if i < k {
                            assert(lex_lt(s[i], key@));
                        } else {
                            assert(lex_lt(s[k as int], s[i]));
                        }
                    }
                }
            }
        }
    } else {
        proof {
            if k < s.len() {
                lemma_lex_total(s[k as int], key@);
                assert(lex_lt(key@, s[k as int]));
            }
            assert forall|j: int| k <= j < s.len() implies lex_lt(key@, #[trigger] s[j]) by {
                if j > k {
                    lemma_lex_transitive(key@, s[k as int], s[j]);
                }
            }
        }
        out.insert(k, (key, value));
        proof {
            let t = stored_keys(out@);
            assert(t =~= s.insert(k as int, key@));
            assert forall|i: int, j: int| 0 <= i < j < t.len() implies lex_lt(
                #[trigger] t[i],
                #[trigger] t[j],
            ) by {
                if j < k {
                } else if i < k && j == k {
                } else if i < k && j > k {
                    lemma_lex_transitive(s[i], key@, s[j - 1]);
                } else if i == k {
                } else {
                    assert(lex_lt(s[i - 1], s[j - 1]));
                }
            }
            assert forall|y: Seq<char>| t.to_set().contains(y) == s.to_set().insert(key@).contains(
                y,
            ) by {
                if t.to_set().contains(y) {
                    let i = choose|i: int| 0 <= i < t.len() && t[i] == y;
                    if i < k {
                        assert(s[i] == y);
                    } else if i > k {
                        assert(s[i - 1] == y);
                    }
                }
                if s.to_set().contains(y) {
                    let i = choose|i: int| 0 <= i < s.len() && s[i] == y;
                    if i < k {
                        assert(t[i] == y);
                    } else {
                        assert(t[i + 1] == y);
                    }
                }
                if y == key@ {
                    assert(t[k as int] == y);
                }
            }
            assert(t.to_set() =~= s.to_set().insert(key@));
            assert forall|i: int| 0 <= i < out@.len() implies json_view(#[trigger] out@[i].1)
                == last_value(ms2, out@[i].0@) by {
                if i < k {
                    assert(out@[i] == old_out[i]);
                    assert(s[i] == old_out[i].0@);
                    if old_out[i].0@ == key@ {
                        lemma_lex_irreflexive(key@);
                    }
                } else if i > k {
                    assert(out@[i] == old_out[i - 1]);
                    assert(s[i - 1] == old_out[i - 1].0@);
                    if old_out[i - 1].0@ == key@ {
                        lemma_lex_irreflexive(key@);
                    }
                }
            }
        }
    }
}

/// The canonical form of a value.
pub fn canonicalize_json(value: &Json) -> (res: Json)
    ensures
        res@ == canonical(value@),
    decreases value,
{
    match value {
        Json::Null => Json::Null,
        Json::Bool(b) => Json::Bool(*b),
        Json::Number(n) => Json::Number(n.clone()),
        Json::Str(s) => Json::Str(s.clone()),
        Json::Array(items) => {
            let mut out = ArrayBuilder::new();
            let mut i: usize = 0;
            proof {
                assert(items@.take(0) =~= Seq::<Json>::empty());
            }
            while i < items.len()
                invariant
                    i <= items.len(),
                    *value == Json::Array(*items),
                    out.items() == canonical_items(items_view(items@.take(i as int))),
                decreases items.len() - i,
            {
                proof {
                    assert(decreases_to!(*value => value->Array_0));
                    assert(decreases_to!(value->Array_0 => value->Array_0@));
                    assert(decreases_to!(items@ => items@[i as int]));
                    assert(decreases_to!(*value => items@[i as int]));
                    assert(items@.take(i + 1) =~= items@.take(i as int).push(items@[i as int]));
                    lemma_items_view_push(items@.take(i as int), items@[i as int]);
                    lemma_canonical_items_push(
                        items_view(items@.take(i as int)),
                        json_view(items@[i as int]),
                    );
                }
                let c = canonicalize_json(&items[i]);
                out.push(c);
                i = i + 1;
            }
            proof {
                assert(items@.take(items.len() as int) =~= items@);
            }
            out.build()
        },
        Json::Object(fields) => {
            let mut out: Vec<(String, Json)> = Vec::new();
            let ghost mut ms: Seq<(Seq<char>, JsonView)> = Seq::empty();
            let mut i: usize = 0;
            proof {
                assert(fields@.take(0) =~= Seq::<(String, Json)>::empty());
                assert(stored_keys(out@) =~= Seq::<Seq<char>>::empty());
                assert(member_keys(ms) =~= Seq::<Seq<char>>::empty());
            }
            while i < fields.len()
                invariant
                    i <= fields.len(),
                    *value == Json::Object(*fields),
                    ms == canonical_members(members_view(fields@.take(i as int))),
                    holds_sorted_members(out@, ms),
                decreases fields.len() - i,
            {
                proof {
                    assert(decreases_to!(*value => value->Object_0));
                    assert(decreases_to!(value->Object_0 => value->Object_0@));
                    assert(decreases_to!(fields@ => fields@[i as int]));
                    assert(decreases_to!(fields@[i as int] => fields@[i as int].1));
                    assert(decreases_to!(*value => fields@[i as int].1));
                    assert(fields@.take(i + 1) =~= fields@.take(i as int).push(fields@[i as int]));
                    lemma_members_view_push(fields@.take(i as int), fields@[i as int]);
                    lemma_canonical_members_push(
                        members_view(fields@.take(i as int)),
                        (fields@[i as int].0@, json_view(fields@[i as int].1)),
                    );
                }
                let c = canonicalize_json(&fields[i].1);
                let key = fields[i].0.clone();
                insert_member(&mut out, key, c, Ghost(ms));
                proof {
                    ms = ms.push((fields@[i as int].0@, canonical(json_view(fields@[i as int].1))));
                }
                i = i + 1;
            }
            proof {
                assert(fields@.take(fields.len() as int) =~= fields@);
                let keys = stored_keys(out@);
                lemma_is_sorted_list(keys);
                lemma_stored_members_view(out@);
                assert(members_view(out@) =~= sorted_members(ms));
            }
            Json::Object(out)
        },
    }
}

pub proof fn lemma_stored_members_view(v: Seq<(String, Json)>)
    ensures
        members_view(v).len() == v.len(),
        forall|k: int| 0 <= k < v.len() ==> #[trigger] members_view(v)[k] == (v[k].0@, json_view(v[k].1)),
    decreases v.len(),
{
    if v.len() > 0 {
        let t = v.subrange(1, v.len() as int);
        lemma_stored_members_view(t);
        assert forall|k: int| 0 <= k < v.len() implies #[trigger] members_view(v)[k] == (
            v[k].0@,
            json_view(v[k].1),
        ) by {
            if k > 0 {
                assert(v[k] == t[k - 1]);
            }
        }
    }
}

// ---------------------------------------------------------------------------
// The fingerprint
// ---------------------------------------------------------------------------

/// Whether a member is anything but the page cursor.
pub open spec fn not_cursor() -> spec_fn((Seq<char>, JsonView)) -> bool {
    |m: (Seq<char>, JsonView)| m.0 != "cursor"@
}

/// The part of a normalized input that identifies it: an object without its
/// `cursor` member; any other value as it is.
pub open spec fn without_cursor(j: JsonView) -> JsonView {
    match j {
        JsonView::Object(ms) => JsonView::Object(ms.filter(not_cursor())),
        _ => j,
    }
}

pub fn input_fingerprint_payload(normalized_input: &Json) -> (res: Json)
    ensures
        res@ == without_cursor(normalized_input@),
{
    match normalized_input {
        Json::Object(fields) => {
            let mut out = ObjectBuilder::new();
            let mut i: usize = 0;
            proof {
                assert(fields@.take(0) =~= Seq::<(String, Json)>::empty());
                assert(members_view(fields@.take(0)).filter(not_cursor()) =~= Seq::<
                    (Seq<char>, JsonView),
                >::empty());
            }
            while i < fields.len()
                invariant
                    i <= fields.len(),
                    out.members() == members_view(fields@.take(i as int)).filter(not_cursor()),
                decreases fields.len() - i,
            {
                proof {
                    assert(fields@.take(i + 1) =~= fields@.take(i as int).push(fields@[i as int]));
                    lemma_members_view_push(fields@.take(i as int), fields@[i as int]);
                    members_view(fields@.take(i as int)).lemma_filter_push(
                        (fields@[i as int].0@, json_view(fields@[i as int].1)),
                        not_cursor(),
                    );
                }
                if !crate::text::str_eq(fields[i].0.as_str(), "cursor") {
                    out.add(fields[i].0.as_str(), fields[i].1.duplicate());
                }
                i = i + 1;
            }
            proof {
                assert(fields@.take(fields.len() as int) =~= fields@);
            }
            out.build()
        },
        _ => normalized_input.duplicate(),
    }
}

/// A lower-case hexadecimal digit.
pub open spec fn hex_digit(n: int) -> char {
    if n < 10 {
        (48 + n) as char
    } else {
        (87 + n) as char
    }
}

/// Bytes in lower-case hexadecimal, two digits a byte.
pub open spec fn lower_hex(bytes: Seq<u8>) -> Seq<char>
    decreases bytes.len(),
{
    if bytes.len() == 0 {
        Seq::empty()
    } else {
        lower_hex(bytes.drop_last()) + seq![
            hex_digit(bytes.last() as int / 16),
            hex_digit(bytes.last() as int % 16),
        ]
    }
}

/// A lower-case hexadecimal digit: `0`-`9` or `a`-`f`.
pub open spec fn is_lower_hex_digit(c: char) -> bool {
    ('0' <= c && c <= '9') || ('a' <= c && c <= 'f')
}

/// Every character of the hexadecimal text of bytes is a lower-case
/// hexadecimal digit, two for each byte.
pub proof fn lemma_lower_hex_digits(bytes: Seq<u8>)
    ensures
        lower_hex(bytes).len() == 2 * bytes.len(),
        forall|i: int| 0 <= i < lower_hex(bytes).len() ==> is_lower_hex_digit(#[trigger] lower_hex(bytes)[i]),
    decreases bytes.len(),
{
    if bytes.len() > 0 {
        lemma_lower_hex_digits(bytes.drop_last());
        let prev = lower_hex(bytes.drop_last());
        let hi = bytes.last() as int / 16;
        let lo = bytes.last() as int % 16;
        assert(is_lower_hex_digit(hex_digit(hi)));
        assert(is_lower_hex_digit(hex_digit(lo)));
        assert forall|i: int| 0 <= i < lower_hex(bytes).len() implies is_lower_hex_digit(
            #[trigger] lower_hex(bytes)[i],
        ) by {
            if i < prev.len() {
                assert(lower_hex(bytes)[i] == prev[i]);
            }
        }
    }
}

fn hex_digit_char(n: u8) -> (c: char)
    requires
        n < 16,
    ensures
        c == hex_digit(n as int),
{
    if n < 10 {
        (48u8 + n) as char
    } else {
        (87u8 + n) as char
    }
}

fn lower_hex_text(bytes: &Vec<u8>) -> (res: String)
    ensures
        res@ == lower_hex(bytes@),
        res@.len() == 2 * bytes@.len(),
{
    let mut out: Vec<char> = Vec::new();
    let mut i: usize = 0;
    proof {
        assert(bytes@.take(0) =~= Seq::<u8>::empty());
    }
    while i < bytes.len()
        invariant
            i <= bytes.len(),
            out@ == lower_hex(bytes@.take(i as int)),
            out@.len() == 2 * i,
        decreases bytes.len() - i,
    {
        let b = bytes[i];
        out.push(hex_digit_char(b / 16));
        out.push(hex_digit_char(b % 16));
        proof {
            let t = bytes@.take(i + 1);
            assert(t.drop_last() =~= bytes@.take(i as int));
            assert(t.last() == b);
            assert(out@ =~= lower_hex(t));
        }
        i = i + 1;
    }
    proof {
        assert(bytes@.take(bytes.len() as int) =~= bytes@);
    }
    crate::text::string_of(&out)
}

/// The checksum of a payload: the lower-case hexadecimal SHA-256 of the
/// compact JSON text of its canonical form.
pub open spec fn spec_checksum(payload: JsonView) -> Seq<char> {
    lower_hex(sha256_of_utf8(compact_json_text(canonical(payload))))
}

pub fn checksum_for_payload(payload: &Json) -> (res: String)
    ensures
        res@ == spec_checksum(payload@),
        res@.len() == 64,
        forall|i: int| 0 <= i < res@.len() ==> is_lower_hex_digit(#[trigger] res@[i]),
{
    let canonical_value = canonicalize_json(payload);
    let text = json_text(&canonical_value);
    let digest = sha256_digest(text.as_str());
    proof {
        lemma_lower_hex_digits(digest@);
    }
    lower_hex_text(&digest)
}

/// The fingerprint of a normalized input: the checksum of the input without
/// its page cursor.
pub open spec fn spec_input_fingerprint(normalized_input: JsonView) -> Seq<char> {
    spec_checksum(without_cursor(normalized_input))
}

pub fn input_fingerprint(normalized_input: &Json) -> (res: String)
    ensures
        res@ == spec_input_fingerprint(normalized_input@),
        res@.len() == 64,
        forall|i: int| 0 <= i < res@.len() ==> is_lower_hex_digit(#[trigger] res@[i]),
{
    checksum_for_payload(&input_fingerprint_payload(normalized_input))
}

// ---------------------------------------------------------------------------
// Laws
// ---------------------------------------------------------------------------

proof fn lemma_last_value_absent(ms: Seq<(Seq<char>, JsonView)>, key: Seq<char>)
    requires
        !member_keys(ms).contains(key),
    ensures
        last_value(ms, key) == JsonView::Null,
    decreases ms.len(),
{
    if ms.len() > 0 {
        assert(member_keys(ms)[ms.len() - 1] == ms.last().0);
        assert(member_keys(ms.drop_last()) =~= member_keys(ms).drop_last());
        if member_keys(ms.drop_last()).contains(key) {
            let i = choose|i: int| 0 <= i < ms.len() - 1 && member_keys(ms.drop_last())[i] == key;
            assert(member_keys(ms)[i] == key);
        }
        lemma_last_value_absent(ms.drop_last(), key);
    }
}

proof fn lemma_last_value_canonical(ms: Seq<(Seq<char>, JsonView)>, key: Seq<char>)
    ensures
        last_value(canonical_members(ms), key) == canonical(last_value(ms, key)),
    decreases ms.len(),
{
    lemma_canonical_members_index(ms);
    if ms.len() > 0 {
        lemma_canonical_members_index(ms.drop_last());
        assert(canonical_members(ms).drop_last() =~= canonical_members(ms.drop_last()));
        lemma_last_value_canonical(ms.drop_last(), key);
    }
}

proof fn lemma_canonical_member_keys(ms: Seq<(Seq<char>, JsonView)>)
    ensures
        member_keys(canonical_members(ms)) == member_keys(ms),
{
    lemma_canonical_members_index(ms);
    assert(member_keys(canonical_members(ms)) =~= member_keys(ms));
}

/// Two objects with the same keys, each key holding values of the same
/// canonical form, have the same canonical form, whatever the order of their
/// members. Applied again to the values, member order counts at no depth.
pub proof fn canonical_ignores_member_order(a: Seq<(Seq<char>, JsonView)>, b: Seq<(Seq<char>, JsonView)>)
    requires
        forall|k: Seq<char>| member_keys(a).contains(k) <==> member_keys(b).contains(k),
        forall|k: Seq<char>|
            member_keys(a).contains(k) ==> canonical(last_value(a, k)) == canonical(last_value(b, k)),
    ensures
        canonical(JsonView::Object(a)) == canonical(JsonView::Object(b)),
{
    let ca = canonical_members(a);
    let cb = canonical_members(b);
    lemma_canonical_member_keys(a);
    lemma_canonical_member_keys(b);
    assert forall|k: Seq<char>| last_value(ca, k) == last_value(cb, k) by {
        lemma_last_value_canonical(a, k);
        lemma_last_value_canonical(b, k);
        if !member_keys(a).contains(k) {
            lemma_last_value_absent(a, k);
            lemma_last_value_absent(b, k);
        }
    }
    assert(member_keys(ca).to_set() =~= member_keys(cb).to_set());
    assert(sorted_members(ca) =~= sorted_members(cb));
}

proof fn lemma_without_cursor_members(ms: Seq<(Seq<char>, JsonView)>)
    ensures
        forall|k: Seq<char>|
            #[trigger] last_value(ms.filter(not_cursor()), k) == (if k == "cursor"@ {
                JsonView::Null
            } else {
                last_value(ms, k)
            }),
        forall|k: Seq<char>|
            #[trigger] member_keys(ms.filter(not_cursor())).contains(k) <==> (k != "cursor"@
                && member_keys(ms).contains(k)),
    decreases ms.len(),
{
    let f = ms.filter(not_cursor());
    if ms.len() == 0 {
        assert(f =~= Seq::<(Seq<char>, JsonView)>::empty());
        assert(member_keys(f) =~= Seq::<Seq<char>>::empty());
        assert(member_keys(ms) =~= Seq::<Seq<char>>::empty());
    } else {
        let init = ms.drop_last();
        let x = ms.last();
        assert(ms =~= init.push(x));
        init.lemma_filter_push(x, not_cursor());
        lemma_without_cursor_members(init);
        let fi = init.filter(not_cursor());
        assert(member_keys(ms) =~= member_keys(init).push(x.0));
        assert(member_keys(fi.push(x)) =~= member_keys(fi).push(x.0));
        assert forall|k: Seq<char>| #[trigger] last_value(f, k) == (if k == "cursor"@ {
            JsonView::Null
        } else {
            last_value(ms, k)
        }) by {
            assert(ms.drop_last() == init);
            assert(ms.last() == x);
            assert(last_value(fi, k) == (if k == "cursor"@ {
                JsonView::Null
            } else {
                last_value(init, k)
            }));
            if x.0 != "cursor"@ {
                assert(f == fi.push(x));
                assert(f.drop_last() =~= fi);
                assert(f.last() == x);
            } else {
                assert(f == fi);
            }
        }
        assert forall|k: Seq<char>| #[trigger] member_keys(f).contains(k) <==> (k != "cursor"@
            && member_keys(ms).contains(k)) by {
            if x.0 != "cursor"@ {
                if member_keys(f).contains(k) && k != x.0 {
                    let i = choose|i: int| 0 <= i < member_keys(f).len() && member_keys(f)[i] == k;
                    assert(member_keys(fi)[i] == k);
                }
                if member_keys(fi).contains(k) {
                    let i = choose|i: int| 0 <= i < member_keys(fi).len() && member_keys(fi)[i] == k;
                    assert(member_keys(f)[i] == k);
                }
                if k == x.0 {
                    assert(member_keys(f)[member_keys(f).len() - 1] == k);
                }
            }
            if member_keys(ms).contains(k) && k != x.0 {
                let i = choose|i: int| 0 <= i < member_keys(ms).len() && member_keys(ms)[i] == k;
                assert(member_keys(init)[i] == k);
            }
            if member_keys(init).contains(k) {
                let i = choose|i: int| 0 <= i < member_keys(init).len() && member_keys(init)[i] == k;
                assert(member_keys(ms)[i] == k);
            }
            if k == x.0 {
                assert(member_keys(ms)[member_keys(ms).len() - 1] == k);
            }
        }
    }
}

/// Two inputs whose members but the page cursor agree up to canonical form
/// have the same fingerprint, whatever the order of their members, at any
/// depth.
pub proof fn fingerprint_ignores_cursor_and_member_order(
    a: Seq<(Seq<char>, JsonView)>,
    b: Seq<(Seq<char>, JsonView)>,
)
    requires
        forall|k: Seq<char>|
            k != "cursor"@ ==> (member_keys(a).contains(k) <==> member_keys(b).contains(k)),
        forall|k: Seq<char>|
            k != "cursor"@ ==> canonical(last_value(a, k)) == canonical(last_value(b, k)),
    ensures
        spec_input_fingerprint(JsonView::Object(a)) == spec_input_fingerprint(JsonView::Object(b)),
{
    lemma_without_cursor_members(a);
    lemma_without_cursor_members(b);
    let fa = a.filter(not_cursor());
    let fb = b.filter(not_cursor());
    assert forall|k: Seq<char>| member_keys(fa).contains(k) <==> member_keys(fb).contains(k) by {
        assert(member_keys(fa).contains(k) == (k != "cursor"@ && member_keys(a).contains(k)));
        assert(member_keys(fb).contains(k) == (k != "cursor"@ && member_keys(b).contains(k)));
    }
    assert forall|k: Seq<char>| member_keys(fa).contains(k) implies canonical(last_value(fa, k))
        == canonical(last_value(fb, k)) by {
        assert(member_keys(fa).contains(k) == (k != "cursor"@ && member_keys(a).contains(k)));
        assert(last_value(fa, k) == last_value(a, k));
        assert(last_value(fb, k) == last_value(b, k));
    }
    canonical_ignores_member_order(fa, fb);
}

} // verus!
