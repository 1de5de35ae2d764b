//! JSON documents. `serde_json` reads and writes them; this module gives their
//! content a mathematical model and verified helpers to take documents apart
//! and to put them together.

use vstd::prelude::*;

verus! {

/// A JSON number, as a document in memory holds it.
pub enum JsonNumber {
    /// An integer that is not negative.
    Unsigned(u64),
    /// A negative integer.
    Negative(i64),
    /// A number written with a fraction or an exponent, by the bits of its binary64 form.
    Float(u64),
}

/// The content of a JSON document.
pub enum JsonTree {
    Null,
    Bool(bool),
    Number(JsonNumber),
    Text(Seq<char>),
    List(Seq<JsonTree>),
    Object(Map<Seq<char>, JsonTree>),
}

/// `serde_json::Value`, a JSON document in memory. Verified code does not
/// look inside: it asks through the functions below.
#[verifier::external_type_specification]
#[verifier::external_body]
pub struct ExJsonValue(serde_json::Value);

/// `serde_json::Error`, the error of a document that cannot be read or written.
#[verifier::external_type_specification]
#[verifier::external_body]
pub struct ExJsonError(serde_json::Error);

/// The content of a document in memory.
pub uninterp spec fn json_tree(value: serde_json::Value) -> JsonTree;

/// The content that `serde_json` reads from a text; `None` where it reports an error.
pub uninterp spec fn json_of_text(text: Seq<char>) -> Option<JsonTree>;

/// The content that `serde_json` reads from bytes; `None` where it reports an error.
pub uninterp spec fn json_of_bytes(bytes: Seq<u8>) -> Option<JsonTree>;

/// The compact bytes that `serde_json` writes for a content; `None` where it reports an error.
pub uninterp spec fn json_bytes(tree: JsonTree) -> Option<Seq<u8>>;

/// The indented text that `serde_json` writes for a content; `None` where it reports an error.
pub uninterp spec fn json_pretty_text(tree: JsonTree) -> Option<Seq<char>>;

/// The member of an object under a key; `None` for a missing key and for
/// anything that is not an object.
pub open spec fn member(tree: JsonTree, key: Seq<char>) -> Option<JsonTree> {
    match tree {
        JsonTree::Object(fields) => if fields.contains_key(key) {
            Some(fields[key])
        } else {
            None
        },
        _ => None,
    }
}

/// The characters of a JSON string; `None` for anything else.
pub open spec fn text_of(tree: JsonTree) -> Option<Seq<char>> {
    match tree {
        JsonTree::Text(text) => Some(text),
        _ => None,
    }
}

/// The value of a non-negative JSON integer; `None` for anything else.
pub open spec fn unsigned_of(tree: JsonTree) -> Option<u64> {
    match tree {
        JsonTree::Number(JsonNumber::Unsigned(n)) => Some(n),
        _ => None,
    }
}

/// The strings of a JSON array that holds nothing but strings; `None` for anything else.
pub open spec fn texts_of(tree: JsonTree) -> Option<Seq<Seq<char>>> {
    match tree {
        JsonTree::List(items) => if forall|i: int| 0 <= i < items.len() ==> (#[trigger] items[i]) is Text {
            Some(Seq::new(items.len(), |i: int| items[i]->Text_0))
        } else {
            None
        },
        _ => None,
    }
}

/// A list of strings as a JSON array.
pub open spec fn texts_tree(texts: Seq<Seq<char>>) -> JsonTree {
    JsonTree::List(Seq::new(texts.len(), |i: int| JsonTree::Text(texts[i])))
}

/// An array made of strings holds those strings.
pub proof fn texts_tree_reads_back(texts: Seq<Seq<char>>)
    ensures
        texts_of(texts_tree(texts)) == Some(texts),
{
}

/// The string under a key of an object.
pub open spec fn text_member(tree: JsonTree, key: Seq<char>) -> Option<Seq<char>> {
    match member(tree, key) {
        Some(found) => text_of(found),
        None => None,
    }
}

/// The array of strings under a key of an object.
pub open spec fn texts_member(tree: JsonTree, key: Seq<char>) -> Option<Seq<Seq<char>>> {
    match member(tree, key) {
        Some(found) => texts_of(found),
        None => None,
    }
}

/// The non-negative integer under a key of an object.
pub open spec fn unsigned_member(tree: JsonTree, key: Seq<char>) -> Option<u64> {
    match member(tree, key) {
        Some(found) => unsigned_of(found),
        None => None,
    }
}

/// The contents of a list of documents in memory.
pub open spec fn trees_of(values: Seq<serde_json::Value>) -> Seq<JsonTree> {
    Seq::new(values.len(), |i: int| json_tree(values[i]))
}

/// Whether no two entries of a list have the same key.
pub open spec fn distinct_keys(entries: Seq<(String, serde_json::Value)>) -> bool {
    forall|i: int, j: int|
        0 <= i < j < entries.len() ==> (#[trigger] entries[i]).0@ != (#[trigger] entries[j]).0@
}

/// Whether an object has the entries of a list as its members, and no others.
pub open spec fn holds_entries(
    fields: Map<Seq<char>, JsonTree>,
    entries: Seq<(String, serde_json::Value)>,
) -> bool {
    &&& forall|i: int|
        0 <= i < entries.len() ==> fields.contains_key((#[trigger] entries[i]).0@) && fields[entries[i].0@]
            == json_tree(entries[i].1)
    &&& forall|key: Seq<char>| #[trigger]
        fields.contains_key(key) ==> exists|i: int|
            0 <= i < entries.len() && (#[trigger] entries[i]).0@ == key
}

/// Calls `serde_json::from_str` for a `serde_json::Value`. The contract only names the outcome.
#[verifier::external_body]
pub(crate) fn value_from_str(text: &str) -> (parsed: Result<serde_json::Value, serde_json::Error>)
    ensures
        parsed is Ok ==> json_of_text(text@) == Some(json_tree(parsed->Ok_0)),
        parsed is Err ==> json_of_text(text@).is_none(),
{
    serde_json::from_str::<serde_json::Value>(text)
}

/// Calls `serde_json::from_slice` for a `serde_json::Value`. The contract only names the outcome.
#[verifier::external_body]
pub(crate) fn value_from_slice(bytes: &[u8]) -> (parsed: Result<
    serde_json::Value,
    serde_json::Error,
>)
    ensures
        parsed is Ok ==> json_of_bytes(bytes@) == Some(json_tree(parsed->Ok_0)),
        parsed is Err ==> json_of_bytes(bytes@).is_none(),
{
    serde_json::from_slice::<serde_json::Value>(bytes)
}

/// Calls `serde_json::to_vec` on a `serde_json::Value`. The contract only names the outcome.
#[verifier::external_body]
pub(crate) fn value_to_vec(value: &serde_json::Value) -> (written: Result<
    Vec<u8>,
    serde_json::Error,
>)
    ensures
        written is Ok ==> json_bytes(json_tree(*value)) == Some(written->Ok_0@),
        written is Err ==> json_bytes(json_tree(*value)).is_none(),
{
    serde_json::to_vec(value)
}

/// Calls `serde_json::to_string_pretty` on a `serde_json::Value`. The contract only names the outcome.
#[verifier::external_body]
pub(crate) fn value_to_string_pretty(value: &serde_json::Value) -> (written: Result<
    String,
    serde_json::Error,
>)
    ensures
        written is Ok ==> json_pretty_text(json_tree(*value)) == Some(written->Ok_0@),
        written is Err ==> json_pretty_text(json_tree(*value)).is_none(),
{
    serde_json::to_string_pretty(value)
}

/// Calls `serde_json::Value::get` with a string key: the member under that
/// key where the value is an object that has one, else `None`.
#[verifier::external_body]
pub(crate) fn value_get<'a>(value: &'a serde_json::Value, key: &str) -> (found: Option<
    &'a serde_json::Value,
>)
    ensures
        found is Some ==> member(json_tree(*value), key@) == Some(json_tree(*found->Some_0)),
        found is None ==> member(json_tree(*value), key@).is_none(),
{
    value.get(key)
}

/// Calls `serde_json::Value::as_str`: the characters where the value is a string, else `None`.
#[verifier::external_body]
pub(crate) fn value_as_str(value: &serde_json::Value) -> (text: Option<&str>)
    ensures
        text is Some ==> json_tree(*value) == JsonTree::Text(text->Some_0@),
        text is None ==> !(json_tree(*value) is Text),
{
    value.as_str()
}

/// Calls `serde_json::Value::as_u64`: the number where the value is an
/// integer that is not negative, else `None`.
#[verifier::external_body]
pub(crate) fn value_as_u64(value: &serde_json::Value) -> (number: Option<u64>)
    ensures
        number is Some ==> json_tree(*value) == JsonTree::Number(JsonNumber::Unsigned(number->Some_0)),
        number is None ==> unsigned_of(json_tree(*value)).is_none(),
{
    value.as_u64()
}

/// Calls `serde_json::Value::as_array`: the items where the value is an array, else `None`.
#[verifier::external_body]
pub(crate) fn value_as_array(value: &serde_json::Value) -> (items: Option<
    &Vec<serde_json::Value>,
>)
    ensures
        items is Some ==> json_tree(*value) == JsonTree::List(trees_of(items->Some_0@)),
        items is None ==> !(json_tree(*value) is List),
{
    value.as_array()
}

/// Calls `serde_json::Value::is_null`.
#[verifier::external_body]
pub(crate) fn value_is_null(value: &serde_json::Value) -> (null: bool)
    ensures
        null == (json_tree(*value) is Null),
{
    value.is_null()
}

/// Makes the variant `serde_json::Value::Null`.
#[verifier::external_body]
pub(crate) fn value_null() -> (value: serde_json::Value)
    ensures
        json_tree(value) == JsonTree::Null,
{
    serde_json::Value::Null
}

/// Makes the variant `serde_json::Value::String`.
#[verifier::external_body]
pub(crate) fn value_string(text: String) -> (value: serde_json::Value)
    ensures
        json_tree(value) == JsonTree::Text(text@),
{
    serde_json::Value::String(text)
}

/// Calls `serde_json::Value::from` on a `u64`, which makes a number that
/// holds the integer.
#[verifier::external_body]
pub(crate) fn value_unsigned(number: u64) -> (value: serde_json::Value)
    ensures
        json_tree(value) == JsonTree::Number(JsonNumber::Unsigned(number)),
{
    serde_json::Value::from(number)
}

/// Makes the variant `serde_json::Value::Array`.
#[verifier::external_body]
pub(crate) fn value_array(items: Vec<serde_json::Value>) -> (value: serde_json::Value)
    ensures
        json_tree(value) == JsonTree::List(trees_of(items@)),
{
    serde_json::Value::Array(items)
}

/// Collects entries into a `serde_json::Map` and makes the variant
/// `serde_json::Value::Object` of it. The entries must have distinct keys;
/// the object then has each of them as a member, and no other member.
#[verifier::external_body]
pub(crate) fn value_object(entries: Vec<(String, serde_json::Value)>) -> (value: serde_json::Value)
    requires
        distinct_keys(entries@),
    ensures
        json_tree(value) is Object,
        holds_entries(json_tree(value)->Object_0, entries@),
{
    serde_json::Value::Object(entries.into_iter().collect())
}

/// The string under a key of an object; `None` where there is none.
pub(crate) fn text_at(document: &serde_json::Value, key: &str) -> (text: Option<String>)
    ensures
        text is Some ==> text_member(json_tree(*document), key@) == Some(text->Some_0@),
        text is None ==> text_member(json_tree(*document), key@).is_none(),
{
    match value_get(document, key) {
        Some(found) => match value_as_str(found) {
            Some(text) => Some(text.to_owned()),
            None => None,
        },
        None => None,
    }
}

/// The non-negative integer under a key of an object; `None` where there is none.
pub(crate) fn unsigned_at(document: &serde_json::Value, key: &str) -> (number: Option<u64>)
    ensures
        number == unsigned_member(json_tree(*document), key@),
{
    match value_get(document, key) {
        Some(found) => value_as_u64(found),
        None => None,
    }
}

/// The array of strings under a key of an object; `None` where there is none.
pub(crate) fn texts_at(document: &serde_json::Value, key: &str) -> (texts: Option<Vec<String>>)
    ensures
        texts is Some ==> texts_member(json_tree(*document), key@) == Some(texts->Some_0.deep_view()),
        texts is None ==> texts_member(json_tree(*document), key@).is_none(),
{
    let found = match value_get(document, key) {
        Some(found) => found,
        None => {
            return None;
        },
    };
    let items = match value_as_array(found) {
        Some(items) => items,
        None => {
            return None;
        },
    };
    let ghost trees = trees_of(items@);
    let mut texts: Vec<String> = Vec::new();
    let mut i: usize = 0;
    while i < items.len()
        invariant
            i <= items.len(),
            texts.len() == i,
            trees == trees_of(items@),
            member(json_tree(*document), key@) == Some(JsonTree::List(trees)),
            forall|k: int| 0 <= k < i ==> trees[k] == JsonTree::Text(#[trigger] texts@[k]@),
        decreases items.len() - i,
    {
        match value_as_str(&items[i]) {
            Some(text) => {
                texts.push(text.to_owned());
            },
            None => {
                assert(!(trees[i as int] is Text));
                return None;
            },
        }
        i += 1;
    }
    assert forall|k: int| 0 <= k < trees.len() implies (#[trigger] trees[k]) is Text by {
        assert(trees[k] == JsonTree::Text(texts@[k]@));
    }
    Some(texts)
}

/// A JSON array that holds the given strings.
pub(crate) fn texts_value(texts: &Vec<String>) -> (value: serde_json::Value)
    ensures
        json_tree(value) == texts_tree(texts.deep_view()),
{
    let mut items: Vec<serde_json::Value> = Vec::new();
    let mut i: usize = 0;
    while i < texts.len()
        invariant
            i <= texts.len(),
            items.len() == i,
            forall|k: int| 0 <= k < i ==> json_tree(#[trigger] items@[k]) == JsonTree::Text(texts@[k]@),
        decreases texts.len() - i,
    {
        items.push(value_string(texts[i].clone()));
        i += 1;
    }
    assert(trees_of(items@) =~= texts_tree(texts.deep_view())->List_0);
    value_array(items)
}

} // verus!
