//! The JSON values that tool arguments, tool schemas and streamed provider
//! data are carried in, and the few operations the engine performs on them.
use vstd::prelude::*;

verus! {

/// `serde_json::Value`, carried through the engine as an opaque value.
#[verifier::external_type_specification]
#[verifier::external_body]
pub struct ExJsonValue(serde_json::Value);

/// `Value::clone`, which serde_json derives: the copy equals the value cloned.
pub assume_specification[ <serde_json::Value as Clone>::clone ](value: &serde_json::Value) -> (r: serde_json::Value)
    ensures
        r == *value,
;

/// The value that `serde_json::from_str` reads from `text`, or `None` when the
/// text is not valid JSON.
pub uninterp spec fn json_parse(text: Seq<char>) -> Option<serde_json::Value>;

/// `value.is_null()`: whether the value is JSON `null`.
pub uninterp spec fn json_is_null(value: serde_json::Value) -> bool;

/// `value` is what `text` reads as, or `null` when the text is not valid JSON.
pub open spec fn parsed_or_null(text: Seq<char>, value: serde_json::Value) -> bool {
    match json_parse(text) {
        Some(v) => value == v,
        None => json_is_null(value),
    }
}

/// The text that `serde_json::to_string` writes for `value`.
pub uninterp spec fn json_text(value: serde_json::Value) -> Seq<char>;

/// `value.get(key)`: the member `key` of a JSON object, if `value` is an
/// object that has one.
pub uninterp spec fn json_member(value: serde_json::Value, key: Seq<char>) -> Option<serde_json::Value>;

/// `value.as_str()`: the string held by a JSON string value.
pub uninterp spec fn json_as_str(value: serde_json::Value) -> Option<Seq<char>>;

/// Calls `serde_json::from_str::<Value>`; the contract claims that the result
/// is `json_parse` of the text, which holds because parsing depends on the
/// text alone.
#[verifier::external_body]
pub fn parse_json(text: &str) -> (r: Option<serde_json::Value>)
    ensures
        r == json_parse(text@),
{
    match serde_json::from_str::<serde_json::Value>(text) {
        Ok(v) => Some(v),
        Err(_) => None,
    }
}

/// Makes `Value::Null`; the contract claims that it is null, as
/// `Value::is_null` reports.
#[verifier::external_body]
fn json_null() -> (r: serde_json::Value)
    ensures
        json_is_null(r),
{
    serde_json::Value::Null
}

/// What `text` reads as, or `null` when it is not valid JSON.
pub fn parse_json_or_null(text: &str) -> (r: serde_json::Value)
    ensures
        parsed_or_null(text@, r),
{
    match parse_json(text) {
        Some(v) => v,
        None => json_null(),
    }
}

/// Calls `serde_json::to_string` on a `Value` (which cannot fail for a
/// `Value`, whose map keys are strings); the contract claims the result is
/// `json_text` of the value.
#[verifier::external_body]
pub fn json_to_string(value: &serde_json::Value) -> (r: String)
    ensures
        r@ == json_text(*value),
{
    serde_json::to_string(value).unwrap_or_default()
}

/// Calls `Value::get` with a string key and clones the member found; the
/// contract claims the result is `json_member` of the value and key.
#[verifier::external_body]
pub fn json_get(value: &serde_json::Value, key: &str) -> (r: Option<serde_json::Value>)
    ensures
        r == json_member(*value, key@),
{
    value.get(key).cloned()
}

/// Calls `Value::as_str` and copies the string out; the contract claims the
/// result is `json_as_str` of the value.
#[verifier::external_body]
pub fn json_str(value: &serde_json::Value) -> (r: Option<String>)
    ensures
        r matches Some(s) ==> json_as_str(*value) == Some(s@),
        r is None ==> json_as_str(*value) is None,
{
    value.as_str().map(|s| s.to_string())
}

/// `value.as_u64()`: the number held by a JSON number that is a
/// non-negative integer fitting in 64 bits.
pub uninterp spec fn json_as_u64(value: serde_json::Value) -> Option<u64>;

/// `value.as_bool()`: the boolean held by a JSON boolean.
pub uninterp spec fn json_as_bool(value: serde_json::Value) -> Option<bool>;

/// Calls `Value::as_u64`; the contract claims the result is `json_as_u64` of
/// the value.
#[verifier::external_body]
pub fn json_u64(value: &serde_json::Value) -> (r: Option<u64>)
    ensures
        r == json_as_u64(*value),
{
    value.as_u64()
}

/// Calls `Value::as_bool`; the contract claims the result is `json_as_bool`
/// of the value.
#[verifier::external_body]
pub fn json_bool(value: &serde_json::Value) -> (r: Option<bool>)
    ensures
        r == json_as_bool(*value),
{
    value.as_bool()
}

/// `Value::String(text)`: the JSON string that holds `text`.
pub uninterp spec fn json_string_of(text: Seq<char>) -> serde_json::Value;

/// `Value::from(n)`: the JSON number that holds the unsigned integer `n`.
pub uninterp spec fn json_u64_of(n: u64) -> serde_json::Value;

/// `Value::Bool(b)`: the JSON boolean `b`.
pub uninterp spec fn json_bool_of(b: bool) -> serde_json::Value;

/// `Value::Array(items)`: the JSON array of `items`, in order.
pub uninterp spec fn json_array_of(items: Seq<serde_json::Value>) -> serde_json::Value;

/// `Value::Object` collected from `entries`: the JSON object with those
/// members.
pub uninterp spec fn json_object_of(entries: Seq<(Seq<char>, serde_json::Value)>) -> serde_json::Value;

/// The members of an object under construction, keys taken as text.
pub open spec fn entries_view(entries: Seq<(String, serde_json::Value)>) -> Seq<(Seq<char>, serde_json::Value)> {
    entries.map_values(|e: (String, serde_json::Value)| (e.0@, e.1))
}

/// No key occurs twice among `entries`.
pub open spec fn keys_distinct(entries: Seq<(Seq<char>, serde_json::Value)>) -> bool {
    forall|i: int, j: int| 0 <= i < j < entries.len() ==> entries[i].0 != entries[j].0
}

/// The value that `entries` give `key`: that of its last occurrence.
pub open spec fn entry_lookup(entries: Seq<(Seq<char>, serde_json::Value)>, key: Seq<char>) -> Option<serde_json::Value>
    decreases entries.len(),
{
    if entries.len() == 0 {
        None
    } else if entries.last().0 == key {
        Some(entries.last().1)
    } else {
        entry_lookup(entries.drop_last(), key)
    }
}

/// Makes `Value::String(text)`; the contract claims the result is
/// `json_string_of` the text and that `Value::as_str` gives the text back.
#[verifier::external_body]
pub(crate) fn json_from_string(text: String) -> (r: serde_json::Value)
    ensures
        r == json_string_of(text@),
        json_as_str(r) == Some(text@),
{
    serde_json::Value::String(text)
}

/// Makes `Value::from(n)`; the contract claims the result is `json_u64_of`
/// the number and that `Value::as_u64` gives it back.
#[verifier::external_body]
pub(crate) fn json_from_u64(n: u64) -> (r: serde_json::Value)
    ensures
        r == json_u64_of(n),
        json_as_u64(r) == Some(n),
{
    serde_json::Value::from(n)
}

/// Makes `Value::Bool(b)`; the contract claims the result is `json_bool_of`
/// the boolean and that `Value::as_bool` gives it back.
#[verifier::external_body]
pub(crate) fn json_from_bool(b: bool) -> (r: serde_json::Value)
    ensures
        r == json_bool_of(b),
        json_as_bool(r) == Some(b),
{
    serde_json::Value::Bool(b)
}

/// Makes `Value::Array(items)`; the contract claims the result is
/// `json_array_of` the items.
#[verifier::external_body]
pub(crate) fn json_from_array(items: Vec<serde_json::Value>) -> (r: serde_json::Value)
    ensures
        r == json_array_of(items@),
{
    serde_json::Value::Array(items)
}

/// Collects `entries` into a `serde_json::Map` and makes `Value::Object` of
/// it. The contract claims the result is `json_object_of` the entries and,
/// where no key occurs twice, that `Value::get` finds each key's value and
/// nothing for any other key. Which value a repeated key keeps is left
/// unsaid: the map's `FromIterator` documentation does not say.
#[verifier::external_body]
pub(crate) fn json_from_object(entries: Vec<(String, serde_json::Value)>) -> (r: serde_json::Value)
    ensures
        r == json_object_of(entries_view(entries@)),
        keys_distinct(entries_view(entries@)) ==> forall|key: Seq<char>|
            #[trigger] json_member(r, key) == entry_lookup(entries_view(entries@), key),
{
    serde_json::Value::Object(entries.into_iter().collect())
}

/// The unsigned integer member `key` of `value`:
/// `value.get(key).and_then(as_u64)`.
pub open spec fn json_u64_member(value: serde_json::Value, key: Seq<char>) -> Option<u64> {
    match json_member(value, key) {
        Some(m) => json_as_u64(m),
        None => None,
    }
}

/// The boolean member `key` of `value`: `value.get(key).and_then(as_bool)`.
pub open spec fn json_bool_member(value: serde_json::Value, key: Seq<char>) -> Option<bool> {
    match json_member(value, key) {
        Some(m) => json_as_bool(m),
        None => None,
    }
}

/// `value.get(key).and_then(|v| v.as_u64())`.
pub fn json_get_u64(value: &serde_json::Value, key: &str) -> (r: Option<u64>)
    ensures
        r == json_u64_member(*value, key@),
{
    match json_get(value, key) {
        Some(m) => json_u64(&m),
        None => None,
    }
}

/// `value.get(key).and_then(|v| v.as_bool())`.
pub fn json_get_bool(value: &serde_json::Value, key: &str) -> (r: Option<bool>)
    ensures
        r == json_bool_member(*value, key@),
{
    match json_get(value, key) {
        Some(m) => json_bool(&m),
        None => None,
    }
}

/// The string member `key` of `value`: `value.get(key).and_then(as_str)`.
pub open spec fn json_str_member(value: serde_json::Value, key: Seq<char>) -> Option<Seq<char>> {
    match json_member(value, key) {
        Some(m) => json_as_str(m),
        None => None,
    }
}

/// `value.get(key).and_then(|v| v.as_str())`, as an owned string.
pub fn json_get_str(value: &serde_json::Value, key: &str) -> (r: Option<String>)
    ensures
        r matches Some(s) ==> json_str_member(*value, key@) == Some(s@),
        r is None ==> json_str_member(*value, key@) is None,
{
    match json_get(value, key) {
        Some(m) => json_str(&m),
        None => None,
    }
}

} // verus!
