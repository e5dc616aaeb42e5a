//! JSON values as trees of plain data, and their text form.

use vstd::prelude::*;

verus! {

/// `serde_json::Number`, a JSON number as serde_json holds it. Nothing is
/// known of what is inside.
#[verifier::external_type_specification]
#[verifier::external_body]
pub struct ExNumber(serde_json::Number);

/// `serde_json::Value`, a JSON value as serde_json holds it. It is copied
/// into a `Json` before anything is read from it.
#[verifier::external_type_specification]
#[verifier::external_body]
pub struct ExValue(serde_json::Value);

/// A JSON value. The members of an object are kept in their order.
#[derive(Debug, PartialEq)]
pub enum Json {
    Null,
    Bool(bool),
    Number(serde_json::Number),
    Text(String),
    Array(Vec<Json>),
    Object(Vec<(String, Json)>),
}

/// What a JSON value is: the same tree over sequences.
pub enum JsonValue {
    Null,
    Bool(bool),
    Number(serde_json::Number),
    Text(Seq<char>),
    Array(Seq<JsonValue>),
    Object(Seq<(Seq<char>, JsonValue)>),
}

/// The tree of sequences that a JSON value stands for.
pub open spec fn tree(json: Json) -> JsonValue
    decreases json,
{
    match json {
        Json::Null => JsonValue::Null,
        Json::Bool(b) => JsonValue::Bool(b),
        Json::Number(n) => JsonValue::Number(n),
        Json::Text(s) => JsonValue::Text(s@),
        Json::Array(items) => JsonValue::Array(
            Seq::new(
                items@.len(),
                |i: int|
                    if 0 <= i < items@.len() {
                        tree(items@[i])
                    } else {
                        JsonValue::Null
                    },
            ),
        ),
        Json::Object(members) => JsonValue::Object(
            Seq::new(
                members@.len(),
                |i: int|
                    if 0 <= i < members@.len() {
                        (members@[i].0@, tree(members@[i].1))
                    } else {
                        (Seq::empty(), JsonValue::Null)
                    },
            ),
        ),
    }
}

impl View for Json {
    type V = JsonValue;

    open spec fn view(&self) -> JsonValue {
        tree(*self)
    }
}

/// The tree that serde_json reads from a text, where it reads one.
pub uninterp spec fn json_parsed(text: Seq<char>) -> Option<JsonValue>;

/// The indented text that serde_json writes for a tree, where it writes one.
pub uninterp spec fn json_pretty_text(value: JsonValue) -> Option<Seq<char>>;

/// The one-line text that serde_json writes for a tree, where it writes one.
pub uninterp spec fn json_compact_text(value: JsonValue) -> Option<Seq<char>>;

/// The number as a `u64`, where serde_json holds it as a whole number that is
/// not negative.
pub uninterp spec fn number_u64(number: serde_json::Number) -> Option<u64>;

/// `Number::as_u64` of serde_json: the number where it is a whole number
/// that is not negative, which depends on the number alone.
#[verifier::external_body]
pub(crate) fn number_as_u64(number: &serde_json::Number) -> (whole: Option<u64>)
    ensures
        whole == number_u64(*number),
{
    number.as_u64()
}

/// Copies a `serde_json::Value` into a tree, variant by variant; the members
/// of an object come in the order in which the value holds them.
#[verifier::external_body]
fn json_of_value(value: &serde_json::Value) -> Json {
    match value {
        serde_json::Value::Null => Json::Null,
        serde_json::Value::Bool(b) => Json::Bool(*b),
        serde_json::Value::Number(n) => Json::Number(n.clone()),
        serde_json::Value::String(s) => Json::Text(s.clone()),
        serde_json::Value::Array(items) => Json::Array(items.iter().map(json_of_value).collect()),
        serde_json::Value::Object(members) => Json::Object(
            members.iter().map(|(k, v)| (k.clone(), json_of_value(v))).collect(),
        ),
    }
}

/// Copies a tree into a `serde_json::Value`, variant by variant; the members
/// of an object are handed over in their order. Of members with one key
/// serde_json keeps the place of the first and the value of the last.
#[verifier::external_body]
fn value_of_json(json: &Json) -> serde_json::Value {
    match json {
        Json::Null => serde_json::Value::Null,
        Json::Bool(b) => serde_json::Value::Bool(*b),
        Json::Number(n) => serde_json::Value::Number(n.clone()),
        Json::Text(s) => serde_json::Value::String(s.clone()),
        Json::Array(items) => serde_json::Value::Array(items.iter().map(value_of_json).collect()),
        Json::Object(members) => serde_json::Value::Object(
            members.iter().map(|(k, v)| (k.clone(), value_of_json(v))).collect(),
        ),
    }
}

/// `serde_json::from_str` at `serde_json::Value`: a tree where the text is one
/// JSON value, nothing where it is not. The tree depends on the text alone.
#[verifier::external_body]
pub(crate) fn parse_json(text: &str) -> (parsed: Option<Json>)
    ensures
        parsed is Some == json_parsed(text@) is Some,
        parsed is Some ==> parsed->0@ == json_parsed(text@)->0,
{
    match serde_json::from_str::<serde_json::Value>(text) {
        Ok(value) => Some(json_of_value(&value)),
        Err(_) => None,
    }
}

/// `serde_json::to_string_pretty` on the value of a tree: its indented text,
/// which depends on the tree alone. There always is one: a `Value` has
/// strings for keys, which is all that the writer asks, and the text is
/// written into memory.
#[verifier::external_body]
pub(crate) fn pretty_text(json: &Json) -> (text: Option<String>)
    ensures
        text is Some,
        json_pretty_text(json@) == Some(text->0@),
{
    match serde_json::to_string_pretty(&value_of_json(json)) {
        Ok(text) => Some(text),
        Err(_) => None,
    }
}

/// `serde_json::to_string` on the value of a tree: its text on one line, which
/// depends on the tree alone. There always is one, as for the indented text.
#[verifier::external_body]
pub(crate) fn compact_text(json: &Json) -> (text: Option<String>)
    ensures
        text is Some,
        json_compact_text(json@) == Some(text->0@),
{
    match serde_json::to_string(&value_of_json(json)) {
        Ok(text) => Some(text),
        Err(_) => None,
    }
}

/// The value of the first member with that key, if there is one.
pub open spec fn member(members: Seq<(Seq<char>, JsonValue)>, key: Seq<char>) -> Option<JsonValue>
    decreases members.len(),
{
    if members.len() == 0 {
        None
    } else if members[0].0 == key {
        Some(members[0].1)
    } else {
        member(members.drop_first(), key)
    }
}

/// A key that first stands at position `at` leads to the value at `at`.
pub proof fn lemma_member_at(members: Seq<(Seq<char>, JsonValue)>, key: Seq<char>, at: int)
    requires
        0 <= at < members.len(),
        members[at].0 == key,
        forall|k: int| 0 <= k < at ==> members[k].0 != key,
    ensures
        member(members, key) == Some(members[at].1),
    decreases at,
{
    if at > 0 {
        let rest = members.drop_first();
        assert(rest[at - 1] == members[at]);
        assert forall|k: int| 0 <= k < at - 1 implies rest[k].0 != key by {
            assert(rest[k] == members[k + 1]);
        }
        lemma_member_at(rest, key, at - 1);
    }
}

/// A key that stands nowhere leads to nothing.
pub proof fn lemma_member_absent(members: Seq<(Seq<char>, JsonValue)>, key: Seq<char>)
    requires
        forall|k: int| 0 <= k < members.len() ==> members[k].0 != key,
    ensures
        member(members, key) is None,
    decreases members.len(),
{
    if members.len() > 0 {
        let rest = members.drop_first();
        assert forall|k: int| 0 <= k < rest.len() implies rest[k].0 != key by {
            assert(rest[k] == members[k + 1]);
        }
        lemma_member_absent(rest, key);
    }
}

/// The value under `key` where `value` is an object that has such a member.
pub open spec fn field(value: JsonValue, key: Seq<char>) -> Option<JsonValue> {
    match value {
        JsonValue::Object(members) => member(members, key),
        _ => None,
    }
}

/// The text of `value` where it is a string.
pub open spec fn text_of(value: JsonValue) -> Option<Seq<char>> {
    match value {
        JsonValue::Text(text) => Some(text),
        _ => None,
    }
}

/// The trees of a run of JSON values, in order.
pub open spec fn trees(items: Seq<Json>) -> Seq<JsonValue> {
    Seq::new(items.len(), |i: int| tree(items[i]))
}

/// The members of an object as pairs of key and tree, in order.
pub open spec fn member_trees(members: Seq<(String, Json)>) -> Seq<(Seq<char>, JsonValue)> {
    Seq::new(members.len(), |i: int| (members[i].0@, tree(members[i].1)))
}

/// An array is the trees of its items.
pub proof fn lemma_array_tree(items: Vec<Json>)
    ensures
        tree(Json::Array(items)) == JsonValue::Array(trees(items@)),
{
    assert(tree(Json::Array(items))->Array_0 =~= trees(items@));
}

/// An object is the keys and trees of its members.
pub proof fn lemma_object_tree(members: Vec<(String, Json)>)
    ensures
        tree(Json::Object(members)) == JsonValue::Object(member_trees(members@)),
{
    assert(tree(Json::Object(members))->Object_0 =~= member_trees(members@));
}

/// The whole number that `value` is, where it is one and not negative.
pub open spec fn whole_of(value: JsonValue) -> Option<u64> {
    match value {
        JsonValue::Number(number) => number_u64(number),
        _ => None,
    }
}

/// The whole number under `key` where `value` is an object with one there.
pub open spec fn whole_field(value: JsonValue, key: Seq<char>) -> Option<u64> {
    match field(value, key) {
        Some(found) => whole_of(found),
        None => None,
    }
}

/// The text under `key` where `value` is an object with a string there.
pub open spec fn text_field(value: JsonValue, key: Seq<char>) -> Option<Seq<char>> {
    match field(value, key) {
        Some(found) => text_of(found),
        None => None,
    }
}

impl Json {
    /// Reads a text as one JSON value.
    pub fn parse(text: &str) -> (parsed: Option<Json>)
        ensures
            parsed is Some == json_parsed(text@) is Some,
            parsed is Some ==> parsed->0@ == json_parsed(text@)->0,
    {
        parse_json(text)
    }

    /// Writes the value as indented text.
    pub fn to_pretty_text(&self) -> (text: Option<String>)
        ensures
            text is Some,
            json_pretty_text(self@) == Some(text->0@),
    {
        pretty_text(self)
    }

    /// Writes the value as text on one line.
    pub fn to_compact_text(&self) -> (text: Option<String>)
        ensures
            text is Some,
            json_compact_text(self@) == Some(text->0@),
    {
        compact_text(self)
    }

    /// The value of the first member with that key, where this is an object
    /// that has one.
    pub fn get(&self, key: &str) -> (found: Option<&Json>)
        ensures
            found is Some == field(self@, key@) is Some,
            found is Some ==> found->0@ == field(self@, key@)->0,
    {
        match self {
            Json::Object(members) => {
                let wanted = key.to_owned();
                let ghost all = self@->Object_0;
                proof {
                    assert(all.skip(0) =~= all);
                }
                let mut i: usize = 0;
                while i < members.len()
                    invariant
                        i <= members.len(),
                        wanted@ == key@,
                        self@ == JsonValue::Object(all),
                        all.len() == members.len(),
                        forall|k: int|
                            0 <= k < members.len() ==> all[k] == (members[k].0@, members[k].1@),
                        member(all, key@) == member(all.skip(i as int), key@),
                    decreases members.len() - i,
                {
                    proof {
                        let rest = all.skip(i as int);
                        assert(rest[0] == all[i as int]);
                        assert(rest.drop_first() =~= all.skip(i + 1));
                    }
                    if members[i].0 == wanted {
                        return Some(&members[i].1);
                    }
                    i += 1;
                }
                None
            },
            _ => None,
        }
    }

    /// The text where this is a string.
    pub fn as_text(&self) -> (text: Option<&String>)
        ensures
            text is Some == text_of(self@) is Some,
            text is Some ==> text->0@ == text_of(self@)->0,
    {
        match self {
            Json::Text(text) => Some(text),
            _ => None,
        }
    }

    /// The truth value where this is one.
    pub fn as_bool(&self) -> (truth: Option<bool>)
        ensures
            truth == (match self@ {
                JsonValue::Bool(b) => Some(b),
                _ => None,
            }),
    {
        match self {
            Json::Bool(b) => Some(*b),
            _ => None,
        }
    }

    /// The whole number where this is one and not negative.
    pub fn as_u64(&self) -> (whole: Option<u64>)
        ensures
            whole == whole_of(self@),
    {
        match self {
            Json::Number(number) => number_as_u64(number),
            _ => None,
        }
    }

    /// The whole number under `key` where this is an object with one there.
    pub fn whole_at(&self, key: &str) -> (whole: Option<u64>)
        ensures
            whole == whole_field(self@, key@),
    {
        match self.get(key) {
            Some(found) => found.as_u64(),
            None => None,
        }
    }

    /// The items where this is an array.
    pub fn as_array(&self) -> (items: Option<&Vec<Json>>)
        ensures
            items is Some == self@ is Array,
            items is Some ==> self@ == JsonValue::Array(trees(items->0@)),
    {
        match self {
            Json::Array(items) => {
                proof {
                    lemma_array_tree(*items);
                }
                Some(items)
            },
            _ => None,
        }
    }

    /// The text under `key` where this is an object with a string there.
    pub fn text_at(&self, key: &str) -> (text: Option<&String>)
        ensures
            text is Some == text_field(self@, key@) is Some,
            text is Some ==> text->0@ == text_field(self@, key@)->0,
    {
        match self.get(key) {
            Some(found) => found.as_text(),
            None => None,
        }
    }
}

} // verus!
