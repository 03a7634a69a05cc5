//! JSON values: what they hold, how they compare, and how they are built.
//!
//! A JSON value is a [`serde_json::Value`]. [`json_view`] names what it holds; the functions below
//! that build, copy and measure values hand the work to `serde_json`.

use crate::datum::Datum;
use crate::text::decoded;
use crate::text_map::TextMap;
use serde_json::Value;
use vstd::prelude::*;
use vstd::utf8::{decode_utf8, valid_utf8};

verus! {

#[verifier::external_type_specification]
#[verifier::external_body]
pub struct ExValue(serde_json::Value);

/// The content of a JSON value.
pub enum JsonView {
    Null,
    Bool(bool),
    Integer(int),
    /// A number that is held as a finite binary64 value, by its bits.
    Real(u64),
    Text(Seq<char>),
    Array(Seq<JsonView>),
    Object(Map<Seq<char>, JsonView>),
}

/// What a `serde_json::Value` holds.
pub uninterp spec fn json_view(value: Value) -> JsonView;

/// The compact encoding of a value, with the entries of each object in the order in which the value
/// holds them.
pub uninterp spec fn json_text(value: Value) -> Seq<u8>;

/// The compact encoding of a JSON content, or the message of the encoder where it refuses the
/// content. Of an object only the length of its encoding is told: the order of its entries is no
/// part of the content.
pub uninterp spec fn json_encoding(content: JsonView) -> Result<Seq<u8>, Seq<char>>;

/// The JSON content that a text encodes, if it encodes one.
pub uninterp spec fn json_parse(text: Seq<char>) -> Option<JsonView>;

/// The length in bytes of the compact encoding of a JSON content, or the message of the encoder.
pub open spec fn json_size(content: JsonView) -> Result<nat, Seq<char>> {
    match json_encoding(content) {
        Ok(bytes) => Ok(bytes.len()),
        Err(message) => Err(message),
    }
}

/// Whether a content is a scalar or a list of scalars.
pub open spec fn is_flat(content: JsonView) -> bool {
    match content {
        JsonView::Array(items) => forall|i: int|
            0 <= i < items.len() ==> !((#[trigger] items[i]) is Array) && !(items[i] is Object),
        JsonView::Object(_) => false,
        _ => true,
    }
}

/// The bits of the two zeros of a binary64 number.
pub open spec fn is_zero_bits(bits: u64) -> bool {
    bits == 0 || bits == 0x8000_0000_0000_0000
}

/// Equality of JSON contents: by structure, where the two zeros count as one number.
pub open spec fn json_equal(left: JsonView, right: JsonView) -> bool
    decreases left,
{
    match (left, right) {
        (JsonView::Real(a), JsonView::Real(b)) => a == b || (is_zero_bits(a) && is_zero_bits(b)),
        (JsonView::Array(a), JsonView::Array(b)) => {
            &&& a.len() == b.len()
            &&& forall|i: int| 0 <= i < a.len() ==> json_equal(#[trigger] a[i], b[i])
        },
        (JsonView::Object(a), JsonView::Object(b)) => {
            if a.dom().finite() {
                &&& a.dom() == b.dom()
                &&& forall|key: Seq<char>| #[trigger]
                    a.dom().contains(key) ==> json_equal(a[key], b[key])
            } else {
                left == right
            }
        },
        _ => left == right,
    }
}

/// Every JSON content equals itself.
pub proof fn json_equal_reflexive(content: JsonView)
    ensures
        json_equal(content, content),
    decreases content,
{
    match content {
        JsonView::Array(items) => {
            assert forall|i: int| 0 <= i < items.len() implies json_equal(
                #[trigger] items[i],
                items[i],
            ) by {
                json_equal_reflexive(items[i]);
            }
        },
        JsonView::Object(entries) => {
            if entries.dom().finite() {
                assert forall|key: Seq<char>| #[trigger]
                    entries.dom().contains(key) implies json_equal(
                    entries[key],
                    entries[key],
                ) by {
                    json_equal_reflexive(entries[key]);
                }
            }
        },
        _ => {},
    }
}

/// `serde_json::to_vec`: the compact encoding of a value, or the encoder's message. The length is
/// that of the content's encoding; of a scalar or a list of scalars, so are the bytes. The bytes
/// of other values do not follow from the content alone: objects are walked in the order in which
/// the value holds their entries.
#[verifier::external_body]
pub(crate) fn encoded(value: &Value) -> (bytes: Result<Vec<u8>, String>)
    ensures
        match bytes {
            Ok(bytes) => {
                &&& bytes@ == json_text(*value)
                &&& json_size(json_view(*value)) == Ok::<nat, Seq<char>>(bytes@.len())
                &&& is_flat(json_view(*value)) ==> json_encoding(json_view(*value)) == Ok::<
                    Seq<u8>,
                    Seq<char>,
                >(bytes@)
            },
            Err(message) => json_encoding(json_view(*value)) == Err::<Seq<u8>, Seq<char>>(
                message@,
            ),
        },
{
    serde_json::to_vec(value).map_err(|error| error.to_string())
}

/// The length of the compact encoding of a value, or the encoder's message.
pub(crate) fn encoded_len(value: &Value) -> (len: Result<usize, String>)
    ensures
        match len {
            Ok(bytes) => json_size(json_view(*value)) == Ok::<nat, Seq<char>>(bytes as nat),
            Err(message) => json_size(json_view(*value)) == Err::<nat, Seq<char>>(message@),
        },
{
    match encoded(value) {
        Ok(bytes) => Ok(bytes.len()),
        Err(message) => Err(message),
    }
}

/// `serde_json::from_str`: the value that a text encodes, if it encodes one.
#[verifier::external_body]
pub(crate) fn parsed(text: &str) -> (value: Option<Value>)
    ensures
        match value {
            Some(value) => json_parse(text@) == Some(json_view(value)),
            None => json_parse(text@) is None,
        },
{
    serde_json::from_str(text).ok()
}

/// The JSON that the bytes of a body or of a file hold, if they hold one.
pub open spec fn body_content(body: Seq<u8>) -> Option<JsonView> {
    if valid_utf8(body) {
        json_parse(decode_utf8(body))
    } else {
        None
    }
}

/// Reads the JSON that bytes hold.
pub fn content_of(body: &Vec<u8>) -> (value: Option<Value>)
    ensures
        match value {
            Some(value) => body_content(body@) == Some(json_view(value)),
            None => body_content(body@) is None,
        },
{
    match decoded(body) {
        Some(text) => parsed(text),
        None => None,
    }
}

/// What a JSON value is, with its parts.
pub enum JsonNode<'a> {
    Null,
    Bool(bool),
    Number,
    Text(&'a String),
    Array(&'a Vec<Value>),
    Object(Vec<(&'a String, &'a Value)>),
}

/// The entries of an object, as they are walked.
pub open spec fn entries_view(entries: Seq<(&String, &Value)>) -> Seq<(Seq<char>, JsonView)> {
    Seq::new(entries.len(), |i: int| (entries[i].0@, json_view(*entries[i].1)))
}

/// Whether a list of entries has each key once.
pub open spec fn distinct_entries(entries: Seq<(Seq<char>, JsonView)>) -> bool {
    forall|i: int, j: int|
        0 <= i < j < entries.len() ==> (#[trigger] entries[i]).0 != (#[trigger] entries[j]).0
}

/// The variants of `Value`, told apart. The entries of an object come from `Map::iter`, each key
/// once, in an order that is not told.
#[verifier::external_body]
pub(crate) fn node<'a>(value: &'a Value) -> (node: JsonNode<'a>)
    ensures
        match node {
            JsonNode::Null => json_view(*value) == JsonView::Null,
            JsonNode::Bool(held) => json_view(*value) == JsonView::Bool(held),
            JsonNode::Number => json_view(*value) is Integer || json_view(*value) is Real,
            JsonNode::Text(text) => json_view(*value) == JsonView::Text(text@),
            JsonNode::Array(items) => json_view(*value) == JsonView::Array(values_view(items@)),
            JsonNode::Object(entries) => json_view(*value) == JsonView::Object(
                object_of(entries_view(entries@)),
            ) && distinct_entries(entries_view(entries@)),
        },
{
    match value {
        Value::Null => JsonNode::Null,
        Value::Bool(held) => JsonNode::Bool(*held),
        Value::Number(_) => JsonNode::Number,
        Value::String(text) => JsonNode::Text(text),
        Value::Array(items) => JsonNode::Array(items),
        Value::Object(entries) => JsonNode::Object(entries.iter().collect()),
    }
}

/// The contents of a list of values.
pub open spec fn values_view(values: Seq<Value>) -> Seq<JsonView> {
    Seq::new(values.len(), |i: int| json_view(values[i]))
}

/// The compact text of an object that was made by inserting entries in the given order.
pub uninterp spec fn object_text(entries: Seq<(Seq<char>, JsonView)>) -> Seq<char>;

/// The contents of entries.
pub open spec fn values_pairs(entries: Seq<(String, Value)>) -> Seq<(Seq<char>, JsonView)> {
    Seq::new(entries.len(), |i: int| (entries[i].0@, json_view(entries[i].1)))
}

/// `Map::from_iter` and `Value::to_string`: the compact text of an object, whose values hold no
/// object, made from entries in their order.
#[verifier::external_body]
pub(crate) fn text_of_object(entries: Vec<(String, Value)>) -> (text: String)
    requires
        forall|i: int| 0 <= i < entries@.len() ==> is_flat(json_view((#[trigger] entries@[i]).1)),
    ensures
        text@ == object_text(values_pairs(entries@)),
{
    Value::Object(serde_json::Map::from_iter(entries)).to_string()
}

/// `Value::Null`.
#[verifier::external_body]
pub(crate) fn null_value() -> (value: Value)
    ensures
        json_view(value) == JsonView::Null,
{
    Value::Null
}

/// `Value::Bool`.
#[verifier::external_body]
pub(crate) fn bool_value(held: bool) -> (value: Value)
    ensures
        json_view(value) == JsonView::Bool(held),
{
    Value::Bool(held)
}

/// `Value::from` of a `u64`: the number itself.
#[verifier::external_body]
pub(crate) fn unsigned_value(number: u64) -> (value: Value)
    ensures
        json_view(value) == JsonView::Integer(number as int),
{
    Value::from(number)
}

/// `Value::from` of an `i64`: the number itself.
#[verifier::external_body]
pub(crate) fn signed_value(number: i64) -> (value: Value)
    ensures
        json_view(value) == JsonView::Integer(number as int),
{
    Value::from(number)
}

/// `Value::String`.
#[verifier::external_body]
pub(crate) fn string_value(text: String) -> (value: Value)
    ensures
        json_view(value) == JsonView::Text(text@),
{
    Value::String(text)
}

/// `Value::Array`.
#[verifier::external_body]
pub(crate) fn array_value(items: Vec<Value>) -> (value: Value)
    ensures
        json_view(value) == JsonView::Array(values_view(items@)),
{
    Value::Array(items)
}

/// `Value::clone`: the copy holds the same.
pub assume_specification[ <serde_json::Value as std::clone::Clone>::clone ](
    value: &serde_json::Value,
) -> (copy: serde_json::Value)
    ensures
        json_view(copy) == json_view(*value),
        json_text(copy) == json_text(*value),
;

/// `Value::eq`: equality by structure, numbers by value.
#[verifier::external_body]
pub(crate) fn equal_values(left: &Value, right: &Value) -> (equal: bool)
    ensures
        equal == json_equal(json_view(*left), json_view(*right)),
{
    left == right
}

/// `Value::Object` of `Map::new`: an object without entries.
#[verifier::external_body]
pub(crate) fn empty_object() -> (object: Value)
    ensures
        json_view(object) == JsonView::Object(Map::empty()),
{
    Value::Object(serde_json::Map::new())
}

/// `Value::get` by key: the entry of an object, and nothing of another value.
#[verifier::external_body]
pub(crate) fn entry_of<'a>(value: &'a Value, key: &str) -> (entry: Option<&'a Value>)
    ensures
        match entry {
            Some(held) => json_view(*value) matches JsonView::Object(entries)
                && entries.dom().contains(key@) && entries[key@] == json_view(*held),
            None => !(json_view(*value) matches JsonView::Object(entries)
                && entries.dom().contains(key@)),
        },
{
    value.get(key)
}

/// `Map::insert` on an object: the entry is added, in place of one with the same key.
#[verifier::external_body]
pub(crate) fn insert_entry(object: &mut Value, key: String, value: Value)
    requires
        json_view(*old(object)) is Object,
    ensures
        json_view(*final(object)) == JsonView::Object(
            json_view(*old(object))->Object_0.insert(key@, json_view(value)),
        ),
{
    if let Value::Object(entries) = object {
        entries.insert(key, value);
    }
}

/// A JSON value of the library's own types.
#[derive(Clone, Debug, PartialEq)]
pub struct Json {
    pub value: Value,
}

impl DeepView for Json {
    type V = JsonView;

    open spec fn deep_view(&self) -> JsonView {
        json_view(self.value)
    }
}

impl Datum for Json {
    fn replica(&self) -> (copy: Self) {
        Json { value: self.value.clone() }
    }
}

/// The object with the given entries; of two entries with one key the later counts.
pub open spec fn object_of(entries: Seq<(Seq<char>, JsonView)>) -> Map<Seq<char>, JsonView>
    decreases entries.len(),
{
    if entries.len() == 0 {
        Map::empty()
    } else {
        object_of(entries.drop_last()).insert(entries.last().0, entries.last().1)
    }
}

/// The entries of an object without any.
pub open spec fn fields() -> Map<Seq<char>, JsonView> {
    Map::empty()
}

/// A number, or null where it is absent.
pub open spec fn number_or_null(number: Option<i64>) -> JsonView {
    match number {
        Some(number) => JsonView::Integer(number as int),
        None => JsonView::Null,
    }
}

/// An object in the making.
pub(crate) struct Fields {
    object: Value,
}

impl Fields {
    /// Whether the value is an object.
    pub(crate) closed spec fn is_object(&self) -> bool {
        json_view(self.object) is Object
    }

    /// The entries so far.
    pub(crate) closed spec fn entries(&self) -> Map<Seq<char>, JsonView> {
        json_view(self.object)->Object_0
    }

    /// An object without entries.
    pub(crate) fn new() -> (made: Self)
        ensures
            made.is_object(),
            made.entries() == fields(),
    {
        Fields { object: empty_object() }
    }

    /// The object with one more entry.
    pub(crate) fn put(self, key: &'static str, value: Value) -> (made: Self)
        requires
            self.is_object(),
        ensures
            made.is_object(),
            made.entries() == self.entries().insert(key@, json_view(value)),
    {
        let mut object = self.object;
        insert_entry(&mut object, key.to_string(), value);
        Fields { object }
    }

    /// The object.
    pub(crate) fn value(self) -> (value: Value)
        requires
            self.is_object(),
        ensures
            json_view(value) == JsonView::Object(self.entries()),
    {
        self.object
    }
}

/// An object holds what its entries say, where each key occurs once, and nothing else.
pub proof fn object_holds_entries(entries: Seq<(Seq<char>, JsonView)>)
    ensures
        object_of(entries).dom().finite(),
        forall|key: Seq<char>| #[trigger]
            object_of(entries).dom().contains(key) ==> exists|i: int|
                0 <= i < entries.len() && (#[trigger] entries[i]).0 == key && object_of(
                    entries,
                )[key] == entries[i].1,
        forall|i: int|
            0 <= i < entries.len() ==> object_of(entries).dom().contains(
                (#[trigger] entries[i]).0,
            ),
        distinct_entries(entries) ==> forall|i: int|
            0 <= i < entries.len() ==> object_of(entries)[(#[trigger] entries[i]).0]
                == entries[i].1,
    decreases entries.len(),
{
    if entries.len() > 0 {
        let rest = entries.drop_last();
        let last = entries.last();
        object_holds_entries(rest);
        let whole = object_of(entries);
        assert forall|key: Seq<char>| #[trigger] whole.dom().contains(key) implies exists|i: int|
            0 <= i < entries.len() && (#[trigger] entries[i]).0 == key && whole[key]
                == entries[i].1 by {
            if key == last.0 {
                assert(entries[entries.len() - 1].0 == key);
            } else {
                assert(object_of(rest).dom().contains(key));
                let i = choose|i: int|
                    0 <= i < rest.len() && (#[trigger] rest[i]).0 == key && object_of(rest)[key]
                        == rest[i].1;
                assert(entries[i] == rest[i]);
            }
        }
        assert forall|i: int| 0 <= i < entries.len() implies whole.dom().contains(
            (#[trigger] entries[i]).0,
        ) by {
            if i < rest.len() {
                assert(entries[i] == rest[i]);
            }
        }
        if distinct_entries(entries) {
            assert(distinct_entries(rest));
            assert forall|i: int| 0 <= i < entries.len() implies whole[(#[trigger] entries[i]).0]
                == entries[i].1 by {
                if i < rest.len() {
                    assert(entries[i] == rest[i]);
                    assert(entries[i].0 != entries[entries.len() - 1].0);
                }
            }
        }
    }
}

/// The JSON object with the entries of a map.
pub(crate) fn object_value(entries: &TextMap<Json>) -> (object: Value)
    ensures
        json_view(object) == JsonView::Object(object_of(entries.deep_view())),
{
    let ghost view = entries.deep_view();
    let mut object = empty_object();
    let mut index: usize = 0;
    assert(view.take(0) =~= Seq::empty());
    while index < entries.len()
        invariant
            view == entries.deep_view(),
            index <= view.len(),
            json_view(object) == JsonView::Object(object_of(view.take(index as int))),
        decreases view.len() - index,
    {
        let key = entries.key_at(index).clone();
        let value = entries.value_at(index).value.clone();
        insert_entry(&mut object, key, value);
        assert(view.take(index + 1).drop_last() =~= view.take(index as int));
        index += 1;
    }
    assert(view.take(index as int) =~= view);
    object
}

} // verus!
