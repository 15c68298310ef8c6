//! JSON documents as plain data.
//!
//! [`Json`] is what the rest of the crate reads and builds. Its view,
//! [`JsonValue`], is the document as mathematics: an object is a finite map
//! from keys to documents, so neither the order of the members nor a member
//! shadowed by a later one with the same key is part of it.

use crate::text::same_text;
use vstd::prelude::*;
use vstd::std_specs::cmp::PartialEqSpecImpl;

verus! {

/// A JSON number: an integer between `i64::MIN` and `u64::MAX`, or any other
/// number, kept as the literal that denotes it.
#[derive(Debug)]
pub enum Number {
    PosInt(u64),
    NegInt(i64),
    Float(String),
}

/// What a [`Number`] denotes.
pub ghost enum NumberView {
    Int(int),
    Real(Seq<char>),
}

impl View for Number {
    type V = NumberView;

    open spec fn view(&self) -> NumberView {
        match self {
            Number::PosInt(u) => NumberView::Int(*u as int),
            Number::NegInt(i) => NumberView::Int(*i as int),
            Number::Float(text) => NumberView::Real(text@),
        }
    }
}

impl Clone for Number {
    fn clone(&self) -> (out: Number)
        ensures
            out@ == self@,
    {
        match self {
            Number::PosInt(u) => Number::PosInt(*u),
            Number::NegInt(i) => Number::NegInt(*i),
            Number::Float(text) => Number::Float(text.clone()),
        }
    }
}

/// A JSON document. The members of an object are kept in the order in which
/// they were added; where two have the same key the later one counts.
#[derive(Debug)]
pub enum Json {
    Null,
    Bool(bool),
    Number(Number),
    String(String),
    Array(Vec<Json>),
    Object(Vec<(String, Json)>),
}

/// The document that a [`Json`] denotes.
#[verifier::ext_equal]
pub ghost enum JsonValue {
    Null,
    Bool(bool),
    Number(NumberView),
    String(Seq<char>),
    Array(Seq<JsonValue>),
    Object(Map<Seq<char>, JsonValue>),
}

impl JsonValue {
    /// The member of an object under `key`.
    pub open spec fn get(self, key: Seq<char>) -> Option<JsonValue> {
        match self {
            JsonValue::Object(members) => if members.dom().contains(key) {
                Some(members[key])
            } else {
                None
            },
            _ => None,
        }
    }

    /// The text of a string document.
    pub open spec fn as_str(self) -> Option<Seq<char>> {
        match self {
            JsonValue::String(text) => Some(text),
            _ => None,
        }
    }

    /// The items of an array document.
    pub open spec fn as_array(self) -> Option<Seq<JsonValue>> {
        match self {
            JsonValue::Array(items) => Some(items),
            _ => None,
        }
    }

    /// The value of an integer document that lies in the range of `i64`.
    pub open spec fn as_i64(self) -> Option<i64> {
        match self {
            JsonValue::Number(NumberView::Int(i)) => if i64::MIN <= i <= i64::MAX {
                Some(i as i64)
            } else {
                None
            },
            _ => None,
        }
    }

    /// The string document holding `text`.
    pub open spec fn text(text: Seq<char>) -> JsonValue {
        JsonValue::String(text)
    }

    /// The integer document holding `value`.
    pub open spec fn integer(value: int) -> JsonValue {
        JsonValue::Number(NumberView::Int(value))
    }
}

/// The document behind an optional reference.
pub open spec fn found_view(found: Option<&Json>) -> Option<JsonValue> {
    match found {
        Some(v) => Some(v@),
        None => None,
    }
}

/// The characters behind an optional string slice.
pub open spec fn found_text(found: Option<&str>) -> Option<Seq<char>> {
    match found {
        Some(t) => Some(t@),
        None => None,
    }
}

/// The documents that the items of an array denote, in order.
pub open spec fn items_view(items: Seq<Json>) -> Seq<JsonValue>
    decreases items, 0nat,
{
    Seq::new(
        items.len(),
        |i: int|
            if 0 <= i < items.len() {
                items[i].view()
            } else {
                JsonValue::Null
            },
    )
}

/// The map that a list of members denotes: each member in turn is written
/// over what stood under its key.
pub open spec fn fields_view(fields: Seq<(String, Json)>) -> Map<Seq<char>, JsonValue>
    decreases fields, fields.len(),
{
    if fields.len() == 0 {
        Map::empty()
    } else {
        fields_view(fields.drop_last()).insert(fields.last().0@, fields.last().1.view())
    }
}

impl View for Json {
    type V = JsonValue;

    open spec fn view(&self) -> JsonValue
        decreases self, 0nat,
    {
        match self {
            Json::Null => JsonValue::Null,
            Json::Bool(b) => JsonValue::Bool(*b),
            Json::Number(n) => JsonValue::Number(n@),
            Json::String(s) => JsonValue::String(s@),
            Json::Array(items) => JsonValue::Array(items_view(items@)),
            Json::Object(fields) => JsonValue::Object(fields_view(fields@)),
        }
    }
}

/// The position of the last member of `fields` whose key is `key`.
pub open spec fn last_index_of(fields: Seq<(String, Json)>, key: Seq<char>) -> Option<int>
    decreases fields.len(),
{
    if fields.len() == 0 {
        None
    } else if fields.last().0@ == key {
        Some(fields.len() - 1)
    } else {
        last_index_of(fields.drop_last(), key)
    }
}

/// A key is in the map of `fields` exactly when some member has it, and the
/// map then holds the value of the last such member.
pub proof fn lemma_fields_lookup(fields: Seq<(String, Json)>, key: Seq<char>)
    ensures
        fields_view(fields).dom().contains(key) <==> last_index_of(fields, key) is Some,
        last_index_of(fields, key) matches Some(i) ==> {
            &&& 0 <= i < fields.len()
            &&& fields[i].0@ == key
            &&& fields_view(fields)[key] == fields[i].1@
            &&& forall|j: int| i < j < fields.len() ==> fields[j].0@ != key
        },
        last_index_of(fields, key) is None ==> forall|j: int|
            0 <= j < fields.len() ==> fields[j].0@ != key,
    decreases fields.len(),
{
    if fields.len() > 0 {
        let rest = fields.drop_last();
        lemma_fields_lookup(rest, key);
        assert(forall|j: int| 0 <= j < rest.len() ==> rest[j] == fields[j]);
        assert(fields_view(fields) == fields_view(rest).insert(
            fields.last().0@,
            fields.last().1@,
        ));
        if fields.last().0@ != key {
            assert(fields_view(fields).dom().contains(key) == fields_view(rest).dom().contains(
                key,
            ));
            if last_index_of(rest, key) is Some {
                assert(fields_view(fields)[key] == fields_view(rest)[key]);
            }
        }
    }
}

/// Adding a member writes it into the map.
pub proof fn lemma_fields_push(fields: Seq<(String, Json)>, member: (String, Json))
    ensures
        fields_view(fields.push(member)) == fields_view(fields).insert(member.0@, member.1@),
{
    assert(fields.push(member).drop_last() =~= fields);
}

/// Adding an item to an array adds the document it denotes.
pub proof fn lemma_items_push(items: Seq<Json>, item: Json)
    ensures
        items_view(items.push(item)) == items_view(items).push(item@),
{
    assert(items_view(items.push(item)) =~= items_view(items).push(item@));
}

/// The position of the last member of `fields` whose key is `key`.
fn find_last(fields: &Vec<(String, Json)>, key: &str) -> (out: Option<usize>)
    ensures
        match out {
            Some(i) => last_index_of(fields@, key@) == Some(i as int),
            None => last_index_of(fields@, key@) is None,
        },
{
    let mut i: usize = fields.len();
    while i > 0
        invariant
            i <= fields.len(),
            forall|j: int| i <= j < fields.len() ==> fields@[j].0@ != key@,
        decreases i,
    {
        i -= 1;
        if same_text(fields[i].0.as_str(), key) {
            proof {
                lemma_fields_lookup(fields@, key@);
            }
            return Some(i);
        }
    }
    proof {
        lemma_fields_lookup(fields@, key@);
    }
    None
}

impl Clone for Json {
    fn clone(&self) -> (out: Json)
        ensures
            out@ == self@,
        decreases self,
    {
        match self {
            Json::Null => Json::Null,
            Json::Bool(b) => Json::Bool(*b),
            Json::Number(n) => Json::Number(n.clone()),
            Json::String(s) => Json::String(s.clone()),
            Json::Array(items) => {
                let mut out: Vec<Json> = Vec::new();
                let mut i: usize = 0;
                while i < items.len()
                    invariant
                        i <= items.len(),
                        self matches Json::Array(v) && v == items,
                        items_view(out@) == items_view(items@.take(i as int)),
                    decreases items.len() - i,
                {
                    let item = items[i].clone();
                    proof {
                        lemma_items_push(out@, item);
                        lemma_items_push(items@.take(i as int), items@[i as int]);
                        assert(items@.take(i as int).push(items@[i as int]) =~= items@.take(
                            i as int + 1,
                        ));
                    }
                    out.push(item);
                    i += 1;
                }
                proof {
                    assert(items@.take(i as int) =~= items@);
                }
                Json::Array(out)
            },
            Json::Object(fields) => {
                let mut out: Vec<(String, Json)> = Vec::new();
                let mut i: usize = 0;
                while i < fields.len()
                    invariant
                        i <= fields.len(),
                        self matches Json::Object(v) && v == fields,
                        fields_view(out@) == fields_view(fields@.take(i as int)),
                    decreases fields.len() - i,
                {
                    let member = (fields[i].0.clone(), fields[i].1.clone());
                    proof {
                        lemma_fields_push(out@, member);
                        lemma_fields_push(fields@.take(i as int), fields@[i as int]);
                        assert(fields@.take(i as int).push(fields@[i as int]) =~= fields@.take(
                            i as int + 1,
                        ));
                    }
                    out.push(member);
                    i += 1;
                }
                proof {
                    assert(fields@.take(i as int) =~= fields@);
                }
                Json::Object(out)
            },
        }
    }
}

impl Json {
    /// The member of an object under `key`; nothing where `self` is no object
    /// or has no such member.
    pub fn get(&self, key: &str) -> (out: Option<&Json>)
        ensures
            found_view(out) == self@.get(key@),
    {
        match self {
            Json::Object(fields) => {
                proof {
                    lemma_fields_lookup(fields@, key@);
                }
                match find_last(fields, key) {
                    Some(i) => Some(&fields[i].1),
                    None => None,
                }
            },
            _ => None,
        }
    }

    /// The text of a string document.
    pub fn as_str(&self) -> (out: Option<&str>)
        ensures
            found_text(out) == self@.as_str(),
    {
        match self {
            Json::String(s) => Some(s.as_str()),
            _ => None,
        }
    }

    /// The items of an array document.
    pub fn as_array(&self) -> (out: Option<&Vec<Json>>)
        ensures
            out is Some <==> self@ is Array,
            out matches Some(items) ==> self@ == JsonValue::Array(items_view(items@)),
    {
        match self {
            Json::Array(items) => Some(items),
            _ => None,
        }
    }

    /// The value of an integer document, where it lies in the range of `i64`.
    pub fn as_i64(&self) -> (out: Option<i64>)
        ensures
            out == self@.as_i64(),
    {
        match self {
            Json::Number(Number::PosInt(u)) => {
                if *u <= i64::MAX as u64 {
                    Some(*u as i64)
                } else {
                    None
                }
            },
            Json::Number(Number::NegInt(i)) => Some(*i),
            _ => None,
        }
    }

    pub fn is_null(&self) -> (out: bool)
        ensures
            out == (self@ is Null),
    {
        match self {
            Json::Null => true,
            _ => false,
        }
    }

    pub fn is_object(&self) -> (out: bool)
        ensures
            out == (self@ is Object),
    {
        match self {
            Json::Object(_) => true,
            _ => false,
        }
    }

    /// A string document holding `text`.
    pub fn text(text: &str) -> (out: Json)
        ensures
            out@ == JsonValue::text(text@),
    {
        Json::String(text.to_owned())
    }

    /// An integer document.
    pub fn integer(value: i64) -> (out: Json)
        ensures
            out@ == JsonValue::integer(value as int),
    {
        if value < 0 {
            Json::Number(Number::NegInt(value))
        } else {
            Json::Number(Number::PosInt(value as u64))
        }
    }

    /// The number that the literal `literal` denotes, as a document.
    pub fn literal(literal: &str) -> (out: Json)
        ensures
            out@ == JsonValue::Number(NumberView::Real(literal@)),
    {
        Json::Number(Number::Float(literal.to_owned()))
    }
}

/// Adds the member `key: value` to the members of an object.
pub fn put(fields: &mut Vec<(String, Json)>, key: &str, value: Json)
    ensures
        fields_view(final(fields)@) == fields_view(old(fields)@).insert(key@, value@),
{
    let member = (key.to_owned(), value);
    proof {
        lemma_fields_push(fields@, member);
    }
    fields.push(member);
}

/// Adds `item` to the items of an array.
pub fn append(items: &mut Vec<Json>, item: Json)
    ensures
        items_view(final(items)@) == items_view(old(items)@).push(item@),
{
    proof {
        lemma_items_push(items@, item);
    }
    items.push(item);
}

impl Number {
    /// Whether two numbers denote the same.
    pub fn same_as(&self, other: &Number) -> (out: bool)
        ensures
            out == (self@ == other@),
    {
        match (self, other) {
            (Number::PosInt(a), Number::PosInt(b)) => *a == *b,
            (Number::NegInt(a), Number::NegInt(b)) => *a == *b,
            (Number::PosInt(a), Number::NegInt(b)) => *b >= 0 && *b as u64 == *a,
            (Number::NegInt(a), Number::PosInt(b)) => *a >= 0 && *a as u64 == *b,
            (Number::Float(a), Number::Float(b)) => same_text(a.as_str(), b.as_str()),
            _ => false,
        }
    }
}

/// Whether every key of `inner` is a key of `outer`.
pub open spec fn keys_within(
    inner: Map<Seq<char>, JsonValue>,
    outer: Map<Seq<char>, JsonValue>,
) -> bool {
    forall|key: Seq<char>| #[trigger] inner.dom().contains(key) ==> outer.dom().contains(key)
}

/// Whether `outer` holds under every key of `inner` what `inner` holds.
pub open spec fn agrees_within(
    inner: Map<Seq<char>, JsonValue>,
    outer: Map<Seq<char>, JsonValue>,
) -> bool {
    forall|key: Seq<char>| #[trigger]
        inner.dom().contains(key) ==> outer.dom().contains(key) && inner[key] == outer[key]
}

/// Whether every key of `inner` is a key of `outer`.
fn has_keys_of(outer: &Vec<(String, Json)>, inner: &Vec<(String, Json)>) -> (out: bool)
    ensures
        out == keys_within(fields_view(inner@), fields_view(outer@)),
{
    let mut i: usize = 0;
    while i < inner.len()
        invariant
            i <= inner.len(),
            forall|j: int|
                0 <= j < i ==> fields_view(outer@).dom().contains(#[trigger] inner@[j].0@),
        decreases inner.len() - i,
    {
        let found = find_last(outer, inner[i].0.as_str());
        proof {
            lemma_fields_lookup(outer@, inner@[i as int].0@);
            lemma_fields_lookup(inner@, inner@[i as int].0@);
        }
        if found.is_none() {
            return false;
        }
        i += 1;
    }
    proof {
        assert forall|key: Seq<char>| #[trigger]
            fields_view(inner@).dom().contains(key) implies fields_view(outer@).dom().contains(
            key,
        ) by {
            lemma_fields_lookup(inner@, key);
            let j = last_index_of(inner@, key)->0;
            assert(inner@[j].0@ == key);
        }
    }
    true
}

/// Whether `outer` holds under every key of `inner` what `inner` holds.
fn agrees_with(inner: &Vec<(String, Json)>, outer: &Vec<(String, Json)>) -> (out: bool)
    ensures
        out == agrees_within(fields_view(inner@), fields_view(outer@)),
    decreases inner,
{
    let mut i: usize = 0;
    while i < inner.len()
        invariant
            i <= inner.len(),
            forall|j: int|
                0 <= j < i ==> fields_view(outer@).dom().contains(#[trigger] inner@[j].0@)
                    && fields_view(inner@)[inner@[j].0@] == fields_view(outer@)[inner@[j].0@],
        decreases inner.len() - i,
    {
        let key = inner[i].0.as_str();
        proof {
            lemma_fields_lookup(outer@, key@);
            lemma_fields_lookup(inner@, key@);
        }
        let here = match find_last(inner, key) {
            Some(here) => here,
            None => {
                proof {
                    assert(inner@[i as int].0@ == key@);
                }
                return false;
            },
        };
        let there = match find_last(outer, key) {
            Some(there) => there,
            None => return false,
        };
        if !inner[here].1.same_as(&outer[there].1) {
            return false;
        }
        i += 1;
    }
    proof {
        assert forall|key: Seq<char>| #[trigger]
            fields_view(inner@).dom().contains(key) implies fields_view(outer@).dom().contains(
            key,
        ) && fields_view(inner@)[key] == fields_view(outer@)[key] by {
            lemma_fields_lookup(inner@, key);
            let j = last_index_of(inner@, key)->0;
            assert(inner@[j].0@ == key);
        }
    }
    true
}

impl Json {
    /// Whether two documents are the same: the same numbers, texts and
    /// items in the same order, and the same members, in whatever order
    /// they were added.
    pub fn same_as(&self, other: &Json) -> (out: bool)
        ensures
            out == (self@ == other@),
        decreases self,
    {
        match (self, other) {
            (Json::Null, Json::Null) => true,
            (Json::Bool(a), Json::Bool(b)) => *a == *b,
            (Json::Number(a), Json::Number(b)) => a.same_as(b),
            (Json::String(a), Json::String(b)) => same_text(a.as_str(), b.as_str()),
            (Json::Array(a), Json::Array(b)) => {
                if a.len() != b.len() {
                    proof {
                        assert(items_view(a@).len() != items_view(b@).len());
                    }
                    return false;
                }
                let mut i: usize = 0;
                while i < a.len()
                    invariant
                        i <= a.len(),
                        a.len() == b.len(),
                        self matches Json::Array(v) && v == a,
                        other matches Json::Array(w) && w == b,
                        forall|j: int| 0 <= j < i ==> a@[j]@ == b@[j]@,
                    decreases a.len() - i,
                {
                    if !a[i].same_as(&b[i]) {
                        proof {
                            assert(items_view(a@)[i as int] != items_view(b@)[i as int]);
                        }
                        return false;
                    }
                    i += 1;
                }
                proof {
                    assert(items_view(a@) =~= items_view(b@));
                }
                true
            },
            (Json::Object(a), Json::Object(b)) => {
                let agree = agrees_with(a, b);
                let within = has_keys_of(a, b);
                proof {
                    let left = fields_view(a@);
                    let right = fields_view(b@);
                    if agree && within {
                        assert forall|key: Seq<char>| left.dom().contains(key)
                            == right.dom().contains(key) by {
                            if left.dom().contains(key) {
                                assert(right.dom().contains(key));
                            }
                            if right.dom().contains(key) {
                                assert(left.dom().contains(key));
                            }
                        }
                        assert(left.dom() =~= right.dom());
                        assert(left =~= right);
                    }
                }
                agree && within
            },
            _ => false,
        }
    }
}

impl PartialEq for Json {
    fn eq(&self, other: &Json) -> (out: bool) {
        self.same_as(other)
    }
}

impl PartialEqSpecImpl for Json {
    open spec fn obeys_eq_spec() -> bool {
        true
    }

    open spec fn eq_spec(&self, other: &Json) -> bool {
        self@ == other@
    }
}

} // verus!
