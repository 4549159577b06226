//! JSON values: what they hold, and how they are read and made.
//!
//! The values themselves are those of `serde_json`. Contracts speak of the
//! [`JsonTree`] that a value holds.

use crate::text::{opt_str, opt_text};
use serde_json::Value;
use vstd::prelude::*;

verus! {

/// The contents of a JSON value. A number that is no integer of 64 bits is given
/// by its text.
pub enum JsonTree {
    Null,
    Bool(bool),
    UInt(u64),
    Int(i64),
    Float(Seq<char>),
    Text(Seq<char>),
    List(Seq<JsonTree>),
    Object(Map<Seq<char>, JsonTree>),
}

impl JsonTree {
    /// The object without members.
    pub open spec fn empty() -> JsonTree {
        JsonTree::Object(Map::empty())
    }

    /// The object with one member set.
    pub open spec fn with(self, key: Seq<char>, item: JsonTree) -> JsonTree {
        match self {
            JsonTree::Object(members) => JsonTree::Object(members.insert(key, item)),
            other => other,
        }
    }

    /// The object with one member set to a text.
    pub open spec fn text(self, key: Seq<char>, item: Seq<char>) -> JsonTree {
        self.with(key, JsonTree::Text(item))
    }

    /// The member of an object.
    pub open spec fn get(self, key: Seq<char>) -> Option<JsonTree> {
        match self {
            JsonTree::Object(members) => if members.dom().contains(key) {
                Some(members[key])
            } else {
                None
            },
            _ => None,
        }
    }

    /// The text that a value is.
    pub open spec fn as_text(self) -> Option<Seq<char>> {
        match self {
            JsonTree::Text(s) => Some(s),
            _ => None,
        }
    }

    /// The text that a member of an object is.
    pub open spec fn get_text(self, key: Seq<char>) -> Option<Seq<char>> {
        match self.get(key) {
            Some(item) => item.as_text(),
            None => None,
        }
    }

    /// The text that a member of an object is, where it is not empty.
    pub open spec fn get_filled(self, key: Seq<char>) -> Option<Seq<char>> {
        match self.get_text(key) {
            Some(s) => if s.len() == 0 {
                None
            } else {
                Some(s)
            },
            None => None,
        }
    }

    /// The natural number that a member of an object is.
    pub open spec fn get_uint(self, key: Seq<char>) -> Option<u64> {
        match self.get(key) {
            Some(JsonTree::UInt(n)) => Some(n),
            _ => None,
        }
    }

    /// The items of the list that a member of an object is.
    pub open spec fn get_items(self, key: Seq<char>) -> Option<Seq<JsonTree>> {
        match self.get(key) {
            Some(JsonTree::List(items)) => Some(items),
            _ => None,
        }
    }

    /// The text of the number that a member of an object is.
    pub open spec fn get_real(self, key: Seq<char>) -> Option<Seq<char>> {
        match self.get(key) {
            Some(item) => real_text(item),
            None => None,
        }
    }

    /// Whether the value is a number.
    pub open spec fn is_number(self) -> bool {
        self is UInt || self is Int || self is Float
    }
}

/// `serde_json::Value`, a JSON value.
#[verifier::external_type_specification]
#[verifier::external_body]
pub struct ExValue(serde_json::Value);

/// What a JSON value holds.
pub uninterp spec fn value_tree(value: Value) -> JsonTree;

/// The text of a JSON value without white space, as `serde_json` writes it.
pub uninterp spec fn compact_text(tree: JsonTree) -> Seq<char>;

/// The text of a JSON value over several indented lines, as `serde_json` writes
/// it.
pub uninterp spec fn pretty_text(tree: JsonTree) -> Seq<char>;

/// The JSON value that a text stands for, or the error, as `serde_json` reads it.
pub uninterp spec fn parsed_tree(text: Seq<char>) -> Result<JsonTree, Seq<char>>;

/// The text of a number as a floating-point number of 64 bits, as std writes it.
pub uninterp spec fn real_text(tree: JsonTree) -> Option<Seq<char>>;

/// The JSON number with the value of the floating-point number that a text
/// stands for.
pub uninterp spec fn real_tree(text: Seq<char>) -> JsonTree;

/// What each of a list of JSON values holds.
pub open spec fn trees(items: Seq<Value>) -> Seq<JsonTree> {
    items.map_values(|item: Value| value_tree(item))
}

/// What a borrowed JSON value that may be absent holds.
pub open spec fn opt_ref_tree(item: Option<&Value>) -> Option<JsonTree> {
    match item {
        Some(value) => Some(value_tree(*value)),
        None => None,
    }
}

/// `Value::Null` is the JSON null.
#[verifier::external_body]
pub(crate) fn null() -> (r: Value)
    ensures
        value_tree(r) == JsonTree::Null,
{
    Value::Null
}

/// `Value::Bool` is the JSON boolean.
#[verifier::external_body]
pub(crate) fn flag(item: bool) -> (r: Value)
    ensures
        value_tree(r) == JsonTree::Bool(item),
{
    Value::Bool(item)
}

/// `Value::from` on a `u64` is the JSON number with that value.
#[verifier::external_body]
pub(crate) fn uint(item: u64) -> (r: Value)
    ensures
        value_tree(r) == JsonTree::UInt(item),
{
    Value::from(item)
}

/// `Value::from` on an `i64` is the JSON number with that value. One that is not
/// negative is the same JSON number as the natural number.
#[verifier::external_body]
pub(crate) fn signed(item: i64) -> (r: Value)
    ensures
        value_tree(r) == int_tree(item),
{
    Value::from(item)
}

/// The JSON number with the value of an integer.
pub open spec fn int_tree(item: i64) -> JsonTree {
    if item < 0 {
        JsonTree::Int(item)
    } else {
        JsonTree::UInt(item as u64)
    }
}

/// `Value::from` on a floating-point number: the text is read as one by std's
/// `parse`, and `serde_json::Number::from_f64` makes the JSON number. A text that
/// is no such number gives the JSON null.
#[verifier::external_body]
pub(crate) fn decimal_value(text: &str) -> (r: Value)
    ensures
        value_tree(r) == real_tree(text@),
{
    let number = text.parse().ok().and_then(serde_json::Number::from_f64);
    number.map_or(Value::Null, Value::Number)
}

/// `Value::String` is the JSON string.
#[verifier::external_body]
pub(crate) fn text(item: &str) -> (r: Value)
    ensures
        value_tree(r) == JsonTree::Text(item@),
{
    Value::String(item.to_string())
}

/// `Value::Array` is the JSON list.
#[verifier::external_body]
pub(crate) fn list(items: Vec<Value>) -> (r: Value)
    ensures
        value_tree(r) == JsonTree::List(trees(items@)),
{
    Value::Array(items)
}

/// `serde_json::Map::new` is the JSON object without members.
#[verifier::external_body]
pub(crate) fn object() -> (r: Value)
    ensures
        value_tree(r) == JsonTree::empty(),
{
    Value::Object(serde_json::Map::new())
}

/// Indexing an object by a key for writing sets the member, whether or not it was
/// there; on a value that is no object it panics.
#[verifier::external_body]
pub(crate) fn set_member(value: Value, key: &str, item: Value) -> (r: Value)
    requires
        value_tree(value) is Object,
    ensures
        value_tree(r) == value_tree(value).with(key@, value_tree(item)),
{
    let mut out = value;
    out[key] = item;
    out
}

/// `Value::clone` is a copy with the same contents.
#[verifier::external_body]
pub(crate) fn copy(value: &Value) -> (r: Value)
    ensures
        value_tree(r) == value_tree(*value),
{
    value.clone()
}

/// `Value::get` on a key is the member of an object, and nothing on any other
/// value.
#[verifier::external_body]
pub(crate) fn get<'a>(value: &'a Value, key: &str) -> (r: Option<&'a Value>)
    ensures
        opt_ref_tree(r) == value_tree(*value).get(key@),
{
    value.get(key)
}

/// `Value::as_str` is the text of a JSON string, and nothing on any other value.
#[verifier::external_body]
pub(crate) fn as_text<'a>(value: &'a Value) -> (r: Option<&'a str>)
    ensures
        opt_str(r) == value_tree(*value).as_text(),
{
    value.as_str()
}

/// `Value::as_u64` is the value of a JSON number that is a natural number of 64
/// bits, and nothing on any other value.
#[verifier::external_body]
pub(crate) fn as_uint(value: &Value) -> (r: Option<u64>)
    ensures
        match value_tree(*value) {
            JsonTree::UInt(n) => r == Some(n),
            _ => r is None,
        },
{
    value.as_u64()
}

/// `Value::as_f64` is the value of a JSON number as a floating-point number, and
/// nothing on any other value; std's `to_string` writes it.
#[verifier::external_body]
pub(crate) fn as_real(value: &Value) -> (r: Option<String>)
    ensures
        opt_text(r) == real_text(value_tree(*value)),
        r is Some <==> value_tree(*value).is_number(),
{
    value.as_f64().map(|number| number.to_string())
}

/// `Value::as_array` is the items of a JSON list, and nothing on any other value.
#[verifier::external_body]
pub(crate) fn as_items<'a>(value: &'a Value) -> (r: Option<&'a Vec<Value>>)
    ensures
        match value_tree(*value) {
            JsonTree::List(items) => r is Some && trees(r->0@) == items,
            _ => r is None,
        },
{
    value.as_array()
}

/// `Value::to_string` writes the value without white space.
#[verifier::external_body]
pub(crate) fn to_text(value: &Value) -> (r: String)
    ensures
        r@ == compact_text(value_tree(*value)),
{
    value.to_string()
}

/// `serde_json::to_string_pretty` writes the value over several lines. It does not
/// fail on a `Value`, whose keys are strings.
#[verifier::external_body]
pub(crate) fn to_pretty(value: &Value) -> (r: String)
    ensures
        r@ == pretty_text(value_tree(*value)),
{
    serde_json::to_string_pretty(value).unwrap_or_default()
}

/// `serde_json::from_str` reads a JSON value, or says why the text is none.
#[verifier::external_body]
pub(crate) fn parse(text: &str) -> (r: Result<Value, String>)
    ensures
        match r {
            Ok(value) => parsed_tree(text@) == Ok::<JsonTree, Seq<char>>(value_tree(value)),
            Err(error) => parsed_tree(text@) == Err::<JsonTree, Seq<char>>(error@),
        },
{
    serde_json::from_str(text).map_err(|error: serde_json::Error| error.to_string())
}

/// A JSON object that is being put together.
pub struct Fields {
    value: Value,
}

impl View for Fields {
    type V = JsonTree;

    closed spec fn view(&self) -> JsonTree {
        value_tree(self.value)
    }
}

impl Fields {
    /// An object without members.
    pub fn new() -> (r: Fields)
        ensures
            r@ == JsonTree::empty(),
            r@ is Object,
    {
        Fields { value: object() }
    }

    /// The object with one member set.
    pub fn with(self, key: &str, item: Value) -> (r: Fields)
        requires
            self@ is Object,
        ensures
            r@ == self@.with(key@, value_tree(item)),
            r@ is Object,
    {
        Fields { value: set_member(self.value, key, item) }
    }

    /// The object with one member set to a text.
    pub fn text(self, key: &str, item: &str) -> (r: Fields)
        requires
            self@ is Object,
        ensures
            r@ == self@.text(key@, item@),
            r@ is Object,
    {
        Fields { value: set_member(self.value, key, text(item)) }
    }

    /// The object as a JSON value.
    pub fn done(self) -> (r: Value)
        ensures
            value_tree(r) == self@,
    {
        self.value
    }

    /// The compact text of the object.
    pub fn written(self) -> (r: String)
        ensures
            r@ == compact_text(self@),
    {
        to_text(&self.value)
    }
}

/// The text that a member of an object is.
pub fn get_text<'a>(value: &'a Value, key: &str) -> (r: Option<&'a str>)
    ensures
        opt_str(r) == value_tree(*value).get_text(key@),
{
    match get(value, key) {
        Some(item) => as_text(item),
        None => None,
    }
}

/// The text that a member of an object is, or another one where it is none.
pub fn text_or_else<'a>(value: &'a Value, key: &str, other: &'a str) -> (r: &'a str)
    ensures
        r@ == crate::text::text_or(value_tree(*value).get_text(key@), other@),
{
    match get_text(value, key) {
        Some(item) => item,
        None => other,
    }
}

/// The text that a member of an object is, where it is not empty.
pub fn get_filled<'a>(value: &'a Value, key: &str) -> (r: Option<&'a str>)
    ensures
        opt_str(r) == value_tree(*value).get_filled(key@),
{
    match get_text(value, key) {
        Some(item) => if item.is_empty() {
            None
        } else {
            Some(item)
        },
        None => None,
    }
}

/// The natural number that a member of an object is.
pub fn get_uint(value: &Value, key: &str) -> (r: Option<u64>)
    ensures
        r == value_tree(*value).get_uint(key@),
{
    match get(value, key) {
        Some(item) => as_uint(item),
        None => None,
    }
}

/// The text of the number that a member of an object is.
pub fn get_real(value: &Value, key: &str) -> (r: Option<String>)
    ensures
        opt_text(r) == value_tree(*value).get_real(key@),
{
    match get(value, key) {
        Some(item) => as_real(item),
        None => None,
    }
}

/// The items of the list that a member of an object is.
pub fn get_items<'a>(value: &'a Value, key: &str) -> (r: Option<&'a Vec<Value>>)
    ensures
        match value_tree(*value).get_items(key@) {
            Some(items) => r is Some && trees(r->0@) == items,
            None => r is None,
        },
{
    match get(value, key) {
        Some(item) => as_items(item),
        None => None,
    }
}

/// The compact text of a member of an object, or another one where there is no
/// such member.
pub open spec fn member_text(tree: JsonTree, key: Seq<char>) -> Option<Seq<char>> {
    match tree.get(key) {
        Some(item) => Some(compact_text(item)),
        None => None,
    }
}

/// The compact text of a member of an object.
pub fn get_written(value: &Value, key: &str) -> (r: Option<String>)
    ensures
        opt_text(r) == member_text(value_tree(*value), key@),
{
    match get(value, key) {
        Some(item) => Some(to_text(item)),
        None => None,
    }
}

/// The JSON string of a text that may be absent, or the JSON null.
pub open spec fn opt_text_tree(item: Option<Seq<char>>) -> JsonTree {
    match item {
        Some(s) => JsonTree::Text(s),
        None => JsonTree::Null,
    }
}

/// The JSON string of a text that may be absent, or the JSON null.
pub fn opt_text_value(item: Option<&str>) -> (r: Value)
    ensures
        value_tree(r) == opt_text_tree(opt_str(item)),
{
    match item {
        Some(s) => text(s),
        None => null(),
    }
}

/// The value that a text stands for, or another one where it stands for none.
pub open spec fn parsed_or(text: Seq<char>, other: JsonTree) -> JsonTree {
    match parsed_tree(text) {
        Ok(tree) => tree,
        Err(_) => other,
    }
}

/// The value that a text stands for, or the object without members.
pub fn parse_or_object(text: &str) -> (r: Value)
    ensures
        value_tree(r) == parsed_or(text@, JsonTree::empty()),
{
    match parse(text) {
        Ok(value) => value,
        Err(_) => object(),
    }
}

/// The value that a text stands for, or the list without items.
pub fn parse_or_list(text: &str) -> (r: Value)
    ensures
        value_tree(r) == parsed_or(text@, JsonTree::List(Seq::empty())),
{
    match parse(text) {
        Ok(value) => value,
        Err(_) => {
            let none: Vec<Value> = Vec::new();
            assert(trees(none@) =~= Seq::empty());
            list(none)
        },
    }
}

/// The value that a text stands for, or the JSON null.
pub fn parse_or_null(text: &str) -> (r: Value)
    ensures
        value_tree(r) == parsed_or(text@, JsonTree::Null),
{
    match parse(text) {
        Ok(value) => value,
        Err(_) => null(),
    }
}

/// The texts among the items of a list, in order.
pub open spec fn texts_among(items: Seq<JsonTree>) -> Seq<Seq<char>>
    decreases items.len(),
{
    if items.len() == 0 {
        Seq::empty()
    } else {
        match items.last() {
            JsonTree::Text(s) => texts_among(items.drop_last()).push(s),
            _ => texts_among(items.drop_last()),
        }
    }
}

/// The texts among the items of a list, in order.
pub fn collect_texts(items: &Vec<Value>) -> (r: Vec<String>)
    ensures
        crate::text::texts(r@) == texts_among(trees(items@)),
{
    let mut out: Vec<String> = Vec::new();
    let mut i: usize = 0;
    assert(crate::text::texts(out@) =~= texts_among(trees(items@).take(0)));
    while i < items.len()
        invariant
            i <= items@.len(),
            crate::text::texts(out@) == texts_among(trees(items@).take(i as int)),
        decreases items@.len() - i,
    {
        let ghost all = trees(items@);
        let ghost before = crate::text::texts(out@);
        proof {
            assert(all.take(i + 1).drop_last() =~= all.take(i as int));
            assert(all.take(i + 1).last() == value_tree(items@[i as int]));
        }
        match as_text(&items[i]) {
            Some(item) => {
                out.push(item.to_string());
                assert(crate::text::texts(out@) =~= before.push(item@));
            },
            None => {},
        }
        i += 1;
    }
    assert(trees(items@).take(i as int) =~= trees(items@));
    out
}

/// The JSON strings of a list of texts.
pub open spec fn text_trees(items: Seq<Seq<char>>) -> Seq<JsonTree> {
    items.map_values(|item: Seq<char>| JsonTree::Text(item))
}

/// The JSON list of a list of texts.
pub fn text_list(items: &Vec<String>) -> (r: Value)
    ensures
        value_tree(r) == JsonTree::List(text_trees(crate::text::texts(items@))),
{
    let mut out: Vec<Value> = Vec::new();
    let mut i: usize = 0;
    while i < items.len()
        invariant
            i <= items@.len(),
            out@.len() == i,
            forall|k: int|
                0 <= k < i ==> value_tree(#[trigger] out@[k]) == JsonTree::Text(items@[k]@),
        decreases items@.len() - i,
    {
        out.push(text(items[i].as_str()));
        i += 1;
    }
    assert(trees(out@) =~= text_trees(crate::text::texts(items@)));
    list(out)
}

} // verus!
