use vstd::prelude::*;

verus! {

/// `serde_json::Value`: a JSON value. Nothing of what it holds is seen here
/// but through the functions below.
#[verifier::external_type_specification]
#[verifier::external_body]
pub struct ExValue(serde_json::Value);

/// `serde_json::Error`: why a text is not JSON.
#[verifier::external_type_specification]
#[verifier::external_body]
pub struct ExError(serde_json::Error);

/// `serde_json::Map`: the members of a JSON object.
#[verifier::external_type_specification]
#[verifier::external_body]
#[verifier::reject_recursive_types(K)]
#[verifier::reject_recursive_types(V)]
pub struct ExMap<K, V>(serde_json::Map<K, V>);

/// The JSON value that a text holds, if it is JSON at all.
pub uninterp spec fn json_parse(text: Seq<char>) -> Option<serde_json::Value>;

/// The members of a JSON value, if it is an object.
pub uninterp spec fn json_object(v: serde_json::Value) -> Option<
    serde_json::Map<String, serde_json::Value>,
>;

/// The members of a JSON object, each a key and its value, in the order in
/// which the object hands them out.
pub uninterp spec fn json_entries(m: serde_json::Map<String, serde_json::Value>) -> Seq<
    (Seq<char>, serde_json::Value),
>;

/// The text of a JSON value, if it is a string.
pub uninterp spec fn json_str(v: serde_json::Value) -> Option<Seq<char>>;

/// The truth value of a JSON value, if it is `true` or `false`.
pub uninterp spec fn json_bool(v: serde_json::Value) -> Option<bool>;

/// Whether a JSON value is `null`.
pub uninterp spec fn json_is_null(v: serde_json::Value) -> bool;

/// The JSON text of a string: the string between quotes, with what JSON does
/// not take as it stands written as an escape; nothing where the string
/// cannot be written.
pub uninterp spec fn json_quote(text: Seq<char>) -> Option<Seq<char>>;

/// Writes a string as JSON.
///
/// Calls `serde_json::to_string` on a `str`. The contract claims that the
/// outcome depends on the string alone.
#[verifier::external_body]
pub(crate) fn quote(text: &str) -> (r: Option<String>)
    ensures
        match r {
            Some(q) => json_quote(text@) == Some(q@),
            None => json_quote(text@) is None,
        },
{
    serde_json::to_string(text).ok()
}

/// Reads a text as JSON.
///
/// Calls `serde_json::from_str` for a `serde_json::Value`. The contract
/// claims that the outcome depends on the text alone: the same text gives the
/// same value, or fails, every time.
#[verifier::external_body]
pub(crate) fn parse_value(text: &str) -> (r: Result<serde_json::Value, serde_json::Error>)
    ensures
        match r {
            Ok(v) => json_parse(text@) == Some(v),
            Err(_) => json_parse(text@) is None,
        },
{
    serde_json::from_str::<serde_json::Value>(text)
}

/// The members of `v`, if it is an object.
///
/// Calls `serde_json::Value::as_object`, which hands out the map of an
/// object and nothing for any other value.
#[verifier::external_body]
pub(crate) fn value_as_object(v: &serde_json::Value) -> (r: Option<
    &serde_json::Map<String, serde_json::Value>,
>)
    ensures
        match r {
            Some(m) => json_object(*v) == Some(*m),
            None => json_object(*v) is None,
        },
{
    v.as_object()
}

/// The members of an object as a list of keys and values.
///
/// Calls `serde_json::Map::iter` and copies each key and value that it hands
/// out, in its order. The contract claims that the list holds just these.
#[verifier::external_body]
pub(crate) fn object_entries(m: &serde_json::Map<String, serde_json::Value>) -> (r: Vec<
    (String, serde_json::Value),
>)
    ensures
        r@.len() == json_entries(*m).len(),
        forall|i: int|
            0 <= i < r@.len() ==> (#[trigger] r@[i]).0@ == json_entries(*m)[i].0 && r@[i].1
                == json_entries(*m)[i].1,
{
    m.iter().map(|(k, x)| (k.clone(), x.clone())).collect()
}

/// The text of `v`, if it is a string.
///
/// Calls `serde_json::Value::as_str`, which hands out the text of a string
/// and nothing for any other value.
#[verifier::external_body]
pub(crate) fn value_as_str(v: &serde_json::Value) -> (r: Option<&str>)
    ensures
        match r {
            Some(s) => json_str(*v) == Some(s@),
            None => json_str(*v) is None,
        },
{
    v.as_str()
}

/// The truth value of `v`, if it is `true` or `false`.
///
/// Calls `serde_json::Value::as_bool`, which hands out the value of a
/// boolean and nothing for any other value.
#[verifier::external_body]
pub(crate) fn value_as_bool(v: &serde_json::Value) -> (r: Option<bool>)
    ensures
        r == json_bool(*v),
{
    v.as_bool()
}

/// Whether `v` is `null`.
///
/// Calls `serde_json::Value::is_null`.
#[verifier::external_body]
pub(crate) fn value_is_null(v: &serde_json::Value) -> (r: bool)
    ensures
        r == json_is_null(*v),
{
    v.is_null()
}

} // verus!
