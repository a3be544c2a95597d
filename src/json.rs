use vstd::prelude::*;

verus! {

/// The JSON text that serde_json writes for the string `s`: `s` in quotes,
/// with the characters JSON demands escaped.
pub uninterp spec fn quoted(s: Seq<char>) -> Seq<char>;

/// The compact text of the member `key` of the JSON object `doc`; `None` when
/// `doc` is no JSON text, is not an object, or has no such member.
pub uninterp spec fn member_text(doc: Seq<char>, key: Seq<char>) -> Option<Seq<char>>;

/// The characters of the JSON string `doc`; `None` when `doc` is no JSON string.
pub uninterp spec fn string_value(doc: Seq<char>) -> Option<Seq<char>>;

/// The value of the JSON number `doc` when it is an integer that fits in
/// `u64`; `None` otherwise.
pub uninterp spec fn u64_value(doc: Seq<char>) -> Option<u64>;

/// The compact text of each element of the JSON array `doc`, in order; `None`
/// when `doc` is no JSON array.
pub uninterp spec fn elements_text(doc: Seq<char>) -> Option<Seq<Seq<char>>>;

/// The compact text of the JSON object `doc` with its member `key` set to the
/// JSON value `value` (added, or replacing one of that name); `None` when `doc`
/// is not an object or `value` is no JSON text.
pub uninterp spec fn with_member(doc: Seq<char>, key: Seq<char>, value: Seq<char>) -> Option<Seq<char>>;

/// Relies on serde_json's `Value::from(&str)` and its `Display`: the JSON
/// string literal for `s`.
#[verifier::external_body]
pub(crate) fn quote(s: &str) -> (r: String)
    ensures
        r@ == quoted(s@),
{
    serde_json::Value::from(s).to_string()
}

/// Relies on serde_json's `from_str::<Value>`, `Value::get` and `Display`:
/// the member `key` of the object `doc`, written back as compact JSON.
#[verifier::external_body]
pub(crate) fn member(doc: &str, key: &str) -> (r: Option<String>)
    ensures
        r matches Some(m) ==> member_text(doc@, key@) == Some(m@),
        r is None ==> member_text(doc@, key@) is None,
{
    let v: serde_json::Value = serde_json::from_str(doc).ok()?;
    v.get(key).map(|m| m.to_string())
}

/// Relies on serde_json's `from_str::<String>`: the string that the JSON
/// text `doc` denotes.
#[verifier::external_body]
pub(crate) fn string_of(doc: &str) -> (r: Option<String>)
    ensures
        r matches Some(s) ==> string_value(doc@) == Some(s@),
        r is None ==> string_value(doc@) is None,
{
    serde_json::from_str::<String>(doc).ok()
}

/// Relies on serde_json's `from_str::<u64>`: the unsigned integer that the
/// JSON text `doc` denotes.
#[verifier::external_body]
pub(crate) fn u64_of(doc: &str) -> (r: Option<u64>)
    ensures
        r == u64_value(doc@),
{
    serde_json::from_str::<u64>(doc).ok()
}

/// Relies on serde_json's `from_str::<Vec<Value>>` and `Value`'s `Display`:
/// the elements of the array `doc`, each written back as compact JSON.
#[verifier::external_body]
pub(crate) fn elements(doc: &str) -> (r: Option<Vec<String>>)
    ensures
        r matches Some(v) ==> elements_text(doc@) == Some(v@.map_values(|e: String| e@)),
        r is None ==> elements_text(doc@) is None,
{
    let items: Vec<serde_json::Value> = serde_json::from_str(doc).ok()?;
    Some(items.iter().map(|e| e.to_string()).collect())
}

/// Relies on serde_json's `from_str::<Value>`, `Value::as_object_mut`,
/// `Map::insert` and `Display`: `doc` with its member `key` set to `value`.
#[verifier::external_body]
pub(crate) fn set_member(doc: &str, key: &str, value: &str) -> (r: Option<String>)
    ensures
        r matches Some(s) ==> with_member(doc@, key@, value@) == Some(s@),
        r is None ==> with_member(doc@, key@, value@) is None,
{
    let mut v: serde_json::Value = serde_json::from_str(doc).ok()?;
    let m: serde_json::Value = serde_json::from_str(value).ok()?;
    v.as_object_mut()?.insert(key.to_string(), m);
    Some(v.to_string())
}

} // verus!
