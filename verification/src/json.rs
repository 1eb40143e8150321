//! JSON values as plain data.
use vstd::prelude::*;

use crate::text::opt_slice;

verus! {

/// A JSON value. Numbers keep their JSON text; objects keep their members in
/// order, each key once.
#[derive(Debug)]
pub enum Json {
    Null,
    Bool(bool),
    Number(String),
    Str(String),
    Array(Vec<Json>),
    Object(Vec<(String, Json)>),
}

/// The value of the first member with the given key.
/// A JSON value that may be absent, by value.
pub open spec fn opt_ref(o: Option<&Json>) -> Option<Json> {
    match o {
        Some(v) => Some(*v),
        None => None,
    }
}

/// The member `key` of a value that may be absent.
pub open spec fn opt_get(o: Option<Json>, key: Seq<char>) -> Option<Json> {
    match o {
        Some(v) => v.spec_get(key),
        None => None,
    }
}

/// The value of a value that may be absent, if it is a boolean.
pub open spec fn opt_as_bool(o: Option<Json>) -> Option<bool> {
    match o {
        Some(v) => v.spec_as_bool(),
        None => None,
    }
}

/// The text of a value that may be absent, if it is a string.
pub open spec fn opt_as_str(o: Option<Json>) -> Option<Seq<char>> {
    match o {
        Some(v) => v.spec_as_str(),
        None => None,
    }
}

pub open spec fn member(fields: Seq<(String, Json)>, key: Seq<char>) -> Option<Json>
    decreases fields.len(),
{
    if fields.len() == 0 {
        None
    } else if fields[0].0@ == key {
        Some(fields[0].1)
    } else {
        member(fields.drop_first(), key)
    }
}

impl Json {
    /// The member `key` of an object; none for other values.
    pub open spec fn spec_get(self, key: Seq<char>) -> Option<Json> {
        match self {
            Json::Object(fields) => member(fields@, key),
            _ => None,
        }
    }

    /// The text of a string value.
    pub open spec fn spec_as_str(self) -> Option<Seq<char>> {
        match self {
            Json::Str(s) => Some(s@),
            _ => None,
        }
    }

    /// The first item of an array.
    pub open spec fn spec_first(self) -> Option<Json> {
        match self {
            Json::Array(items) => if items.len() > 0 {
                Some(items@[0])
            } else {
                None
            },
            _ => None,
        }
    }

    /// The value of a boolean.
    pub open spec fn spec_as_bool(self) -> Option<bool> {
        match self {
            Json::Bool(b) => Some(b),
            _ => None,
        }
    }

    pub fn as_bool(&self) -> (res: Option<bool>)
        ensures
            res == self.spec_as_bool(),
    {
        match self {
            Json::Bool(b) => Some(*b),
            _ => None,
        }
    }

    pub fn is_null(&self) -> (res: bool)
        ensures
            res == (*self is Null),
    {
        match self {
            Json::Null => true,
            _ => false,
        }
    }

    /// The items of an array.
    pub fn as_array(&self) -> (res: Option<&Vec<Json>>)
        ensures
            match res {
                Some(items) => *self == Json::Array(*items),
                None => !(*self is Array),
            },
    {
        match self {
            Json::Array(items) => Some(items),
            _ => None,
        }
    }

    pub fn as_str(&self) -> (res: Option<&str>)
        ensures
            opt_slice(res) == self.spec_as_str(),
    {
        match self {
            Json::Str(s) => Some(s.as_str()),
            _ => None,
        }
    }

    pub fn first(&self) -> (res: Option<&Json>)
        ensures
            opt_ref(res) == self.spec_first(),
    {
        match self {
            Json::Array(items) => if items.len() > 0 {
                Some(&items[0])
            } else {
                None
            },
            _ => None,
        }
    }

    pub fn get(&self, key: &str) -> (res: Option<&Json>)
        ensures
            match res {
                Some(v) => self.spec_get(key@) == Some(*v),
                None => self.spec_get(key@) is None,
            },
    {
        match self {
            Json::Object(fields) => {
                let mut i: usize = 0;
                proof {
                    assert(fields@.skip(0) =~= fields@);
                }
                while i < fields.len()
                    invariant
                        i <= fields.len(),
                        self.spec_get(key@) == member(fields@, key@),
                        member(fields@, key@) == member(fields@.skip(i as int), key@),
                    decreases fields.len() - i,
                {
                    proof {
                        assert(fields@.skip(i as int).drop_first() =~= fields@.skip(i + 1));
                    }
                    let name: &str = fields[i].0.as_str();
                    if crate::text::str_eq(name, key) {
                        proof {
                            assert(name@ == fields@[i as int].0@);
                            assert(fields@.skip(i as int)[0] == fields@[i as int]);
                            assert(member(fields@.skip(i as int), key@) == Some(fields@[i as int].1));
                        }
                        return Some(&fields[i].1);
                    }
                    i = i + 1;
                }
                None
            },
            _ => None,
        }
    }
}


/// A JSON value as plain data: strings as character sequences.
pub enum JsonView {
    Null,
    Bool(bool),
    Number(Seq<char>),
    Str(Seq<char>),
    Array(Seq<JsonView>),
    Object(Seq<(Seq<char>, JsonView)>),
}

pub open spec fn json_view(j: Json) -> JsonView
    decreases j, 0int,
{
    match j {
        Json::Null => JsonView::Null,
        Json::Bool(b) => JsonView::Bool(b),
        Json::Number(n) => JsonView::Number(n@),
        Json::Str(s) => JsonView::Str(s@),
        Json::Array(items) => JsonView::Array(items_view(items@)),
        Json::Object(fields) => JsonView::Object(members_view(fields@)),
    }
}

pub open spec fn items_view(items: Seq<Json>) -> Seq<JsonView>
    decreases items, 1int,
{
    if items.len() == 0 {
        Seq::empty()
    } else {
        seq![json_view(items[0])] + items_view(items.subrange(1, items.len() as int))
    }
}

pub open spec fn members_view(fields: Seq<(String, Json)>) -> Seq<(Seq<char>, JsonView)>
    decreases fields, 1int,
{
    if fields.len() == 0 {
        Seq::empty()
    } else {
        seq![(fields[0].0@, json_view(fields[0].1))] + members_view(
            fields.subrange(1, fields.len() as int),
        )
    }
}

impl View for Json {
    type V = JsonView;

    open spec fn view(&self) -> JsonView {
        json_view(*self)
    }
}

/// A JSON string.
pub fn json_str(s: &str) -> (res: Json)
    ensures
        res@ == JsonView::Str(s@),
{
    Json::Str(s.to_owned())
}

/// A JSON object of the given members, in order.
pub fn json_object(fields: Vec<(String, Json)>) -> (res: Json)
    ensures
        res@ == JsonView::Object(members_view(fields@)),
{
    Json::Object(fields)
}

/// The view of one member.
pub open spec fn member_view(key: Seq<char>, value: Json) -> (Seq<char>, JsonView) {
    (key, json_view(value))
}

/// One member, for building an object.
pub fn member_entry(key: &str, value: Json) -> (res: (String, Json))
    ensures
        res.0@ == key@,
        res.1 == value,
{
    (key.to_owned(), value)
}

pub proof fn lemma_members_view_push(fields: Seq<(String, Json)>, last: (String, Json))
    ensures
        members_view(fields.push(last)) == members_view(fields).push((last.0@, json_view(last.1))),
    decreases fields.len(),
{
    let all = fields.push(last);
    if fields.len() == 0 {
        assert(all.subrange(1, all.len() as int) =~= Seq::<(String, Json)>::empty());
        assert(all[0] == last);
        assert(members_view(Seq::<(String, Json)>::empty()) == Seq::<(Seq<char>, JsonView)>::empty());
        assert(members_view(all) =~= seq![(last.0@, json_view(last.1))]);
    } else {
        assert(all.subrange(1, all.len() as int) =~= fields.subrange(1, fields.len() as int).push(last));
        lemma_members_view_push(fields.subrange(1, fields.len() as int), last);
        assert(members_view(all) =~= members_view(fields).push((last.0@, json_view(last.1))));
    }
}

pub proof fn lemma_items_view_push(items: Seq<Json>, last: Json)
    ensures
        items_view(items.push(last)) == items_view(items).push(json_view(last)),
    decreases items.len(),
{
    let all = items.push(last);
    if items.len() == 0 {
        assert(all.subrange(1, all.len() as int) =~= Seq::<Json>::empty());
        assert(all[0] == last);
        assert(items_view(Seq::<Json>::empty()) == Seq::<JsonView>::empty());
        assert(items_view(all) =~= seq![json_view(last)]);
    } else {
        assert(all.subrange(1, all.len() as int) =~= items.subrange(1, items.len() as int).push(last));
        lemma_items_view_push(items.subrange(1, items.len() as int), last);
        assert(items_view(all) =~= items_view(items).push(json_view(last)));
    }
}

/// An object being built member by member.
pub struct ObjectBuilder {
    fields: Vec<(String, Json)>,
}

impl ObjectBuilder {
    pub closed spec fn members(self) -> Seq<(Seq<char>, JsonView)> {
        members_view(self.fields@)
    }

    pub fn new() -> (res: Self)
        ensures
            res.members() == Seq::<(Seq<char>, JsonView)>::empty(),
    {
        ObjectBuilder { fields: Vec::new() }
    }

    /// Appends a member.
    pub fn add(&mut self, key: &str, value: Json)
        ensures
            final(self).members() == old(self).members().push((key@, value@)),
    {
        let entry = (key.to_owned(), value);
        proof {
            lemma_members_view_push(self.fields@, entry);
        }
        self.fields.push(entry);
    }

    /// The object.
    pub fn build(self) -> (res: Json)
        ensures
            res@ == JsonView::Object(self.members()),
    {
        Json::Object(self.fields)
    }
}

/// An array being built item by item.
pub struct ArrayBuilder {
    items: Vec<Json>,
}

impl ArrayBuilder {
    pub closed spec fn items(self) -> Seq<JsonView> {
        items_view(self.items@)
    }

    pub fn new() -> (res: Self)
        ensures
            res.items() == Seq::<JsonView>::empty(),
    {
        ArrayBuilder { items: Vec::new() }
    }

    pub fn push(&mut self, value: Json)
        ensures
            final(self).items() == old(self).items().push(value@),
    {
        proof {
            lemma_items_view_push(self.items@, value);
        }
        self.items.push(value);
    }

    pub fn build(self) -> (res: Json)
        ensures
            res@ == JsonView::Array(self.items()),
    {
        Json::Array(self.items)
    }
}


impl Json {
    /// A copy of the value.
    pub fn duplicate(&self) -> (res: Json)
        ensures
            res@ == self@,
        decreases self,
    {
        match self {
            Json::Null => Json::Null,
            Json::Bool(b) => Json::Bool(*b),
            Json::Number(n) => Json::Number(n.clone()),
            Json::Str(s) => Json::Str(s.clone()),
            Json::Array(items) => {
                let mut out = ArrayBuilder::new();
                let mut i: usize = 0;
                proof {
                    assert(items@.take(0) =~= Seq::<Json>::empty());
                }
                while i < items.len()
                    invariant
                        i <= items.len(),
                        *self == Json::Array(*items),
                        out.items() == items_view(items@.take(i as int)),
                    decreases items.len() - i,
                {
                    proof {
                        assert(decreases_to!(*self => self->Array_0));
                        assert(decreases_to!(self->Array_0 => self->Array_0@));
                        assert(decreases_to!(items@ => items@[i as int]));
                        assert(decreases_to!(*self => items@[i as int]));
                        assert(items@.take(i + 1) =~= items@.take(i as int).push(items@[i as int]));
                        lemma_items_view_push(items@.take(i as int), items@[i as int]);
                    }
                    let copy = items[i].duplicate();
                    out.push(copy);
                    i = i + 1;
                }
                proof {
                    assert(items@.take(items.len() as int) =~= items@);
                }
                out.build()
            },
            Json::Object(fields) => {
                let mut out = ObjectBuilder::new();
                let mut i: usize = 0;
                proof {
                    assert(fields@.take(0) =~= Seq::<(String, Json)>::empty());
                }
                while i < fields.len()
                    invariant
                        i <= fields.len(),
                        *self == Json::Object(*fields),
                        out.members() == members_view(fields@.take(i as int)),
                    decreases fields.len() - i,
                {
                    proof {
                        assert(decreases_to!(*self => self->Object_0));
                        assert(decreases_to!(self->Object_0 => self->Object_0@));
                        assert(decreases_to!(fields@ => fields@[i as int]));
                        assert(decreases_to!(fields@[i as int] => fields@[i as int].1));
                        assert(decreases_to!(*self => fields@[i as int].1));
                        assert(fields@.take(i + 1) =~= fields@.take(i as int).push(fields@[i as int]));
                        lemma_members_view_push(fields@.take(i as int), fields@[i as int]);
                    }
                    let copy = fields[i].1.duplicate();
                    out.add(fields[i].0.as_str(), copy);
                    i = i + 1;
                }
                proof {
                    assert(fields@.take(fields.len() as int) =~= fields@);
                }
                out.build()
            },
        }
    }
}

/// `serde_json::Value`, the parser's own value type, carried only through the
/// parse below.
#[verifier::external_type_specification]
#[verifier::external_body]
pub struct ExJsonValue(serde_json::Value);

/// What `serde_json` reads from a JSON text: the value, or none where the text
/// is not JSON.
pub uninterp spec fn parsed_json(text: Seq<char>) -> Option<Json>;

/// `serde_json::from_str::<serde_json::Value>`: parses a JSON text. The parse
/// depends on the text alone; what it gives is not stated here beyond that.
#[verifier::external_body]
pub fn parse_json(text: &str) -> (res: Option<Json>)
    ensures
        res == parsed_json(text@),
{
    match serde_json::from_str::<serde_json::Value>(text) {
        Ok(value) => Some(json_of_value(&value)),
        Err(_) => None,
    }
}

/// Converts a parsed `serde_json::Value` into a library value, one node for
/// one node; a number keeps the text `serde_json` writes for it.
#[verifier::external_body]
fn json_of_value(value: &serde_json::Value) -> Json {
    match value {
        serde_json::Value::Null => Json::Null,
        serde_json::Value::Bool(b) => Json::Bool(*b),
        serde_json::Value::Number(n) => Json::Number(n.to_string()),
        serde_json::Value::String(s) => Json::Str(s.clone()),
        serde_json::Value::Array(items) => Json::Array(items.iter().map(json_of_value).collect()),
        serde_json::Value::Object(map) => Json::Object(
            map.iter().map(|(k, v)| (k.clone(), json_of_value(v))).collect(),
        ),
    }
}

/// The compact JSON text `serde_json` writes for a value.
pub uninterp spec fn compact_json_text(value: JsonView) -> Seq<char>;

/// `Display` of `serde_json::Value`: the compact JSON text of a value, a
/// function of the value alone. `serde_json` keeps an object's members in a
/// map ordered by key, so the text lists each key once, in increasing order.
#[verifier::external_body]
pub fn json_text(value: &Json) -> (res: String)
    ensures
        res@ == compact_json_text(value@),
{
    value_of_json(value).to_string()
}

/// Converts a library value into a `serde_json::Value`, one node for one
/// node; a number's text is read back as a JSON number.
#[verifier::external_body]
fn value_of_json(value: &Json) -> serde_json::Value {
    match value {
        Json::Null => serde_json::Value::Null,
        Json::Bool(b) => serde_json::Value::Bool(*b),
        Json::Number(n) => n.parse::<serde_json::Number>().map(serde_json::Value::Number).unwrap_or(serde_json::Value::Null),
        Json::Str(s) => serde_json::Value::String(s.clone()),
        Json::Array(items) => serde_json::Value::Array(items.iter().map(value_of_json).collect()),
        Json::Object(fields) => serde_json::Value::Object(
            fields.iter().map(|(k, v)| (k.clone(), value_of_json(v))).collect(),
        ),
    }
}

} // verus!
