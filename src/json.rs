use vstd::prelude::*;

verus! {

#[verifier::external_type_specification]
#[verifier::external_body]
pub struct ExValue(serde_json::Value);

#[verifier::external_type_specification]
#[verifier::external_body]
#[verifier::reject_recursive_types(K)]
#[verifier::reject_recursive_types(V)]
pub struct ExMap<K, V>(serde_json::Map<K, V>);

/// What a JSON object holds, member by member: `Some(text)` for a member
/// whose value is a JSON string, `None` for a member of any other kind.
pub uninterp spec fn object_members(m: serde_json::Map<String, serde_json::Value>) -> Map<
    Seq<char>,
    Option<Seq<char>>,
>;

/// The members, as `object_members` gives them, of the object that
/// `serde_json::from_str` reads from a text; `None` where the text is not a
/// JSON object.
pub uninterp spec fn parsed_object(text: Seq<char>) -> Option<Map<Seq<char>, Option<Seq<char>>>>;

/// The text of a member, where the member is present and holds a JSON string.
pub open spec fn text_member(members: Map<Seq<char>, Option<Seq<char>>>, key: Seq<char>) -> Option<
    Seq<char>,
> {
    if members.contains_key(key) {
        members[key]
    } else {
        None
    }
}

/// The view of an optional string slice.
pub open spec fn opt_str(o: Option<&str>) -> Option<Seq<char>> {
    match o {
        Some(s) => Some(s@),
        None => None,
    }
}

/// Relies on `serde_json::from_str::<Map<String, Value>>`: it succeeds exactly
/// on the texts that hold one JSON object, and the result depends on the text
/// alone.
#[verifier::external_body]
pub(crate) fn decode_object(text: &str) -> (r: Option<serde_json::Map<String, serde_json::Value>>)
    ensures
        r.is_some() == parsed_object(text@).is_some(),
        r.is_some() ==> parsed_object(text@) == Some(object_members(r.unwrap())),
{
    serde_json::from_str::<serde_json::Map<String, serde_json::Value>>(text).ok()
}

/// Relies on `serde_json::Map::get`: the value of the member `key`, present
/// exactly when the object has that member.
#[verifier::external_body]
pub(crate) fn member<'a>(m: &'a serde_json::Map<String, serde_json::Value>, key: &str) -> (r: Option<
    &'a serde_json::Value,
>)
    ensures
        r.is_some() == object_members(*m).contains_key(key@),
{
    m.get(key)
}

/// Relies on `serde_json::Map::get` and the `Value::String` variant: the text
/// of the member `key` where it holds a JSON string.
#[verifier::external_body]
pub(crate) fn string_member<'a>(m: &'a serde_json::Map<String, serde_json::Value>, key: &str) -> (r:
    Option<&'a str>)
    ensures
        opt_str(r) == text_member(object_members(*m), key@),
{
    match m.get(key) {
        Some(serde_json::Value::String(s)) => Some(s.as_str()),
        _ => None,
    }
}

/// Relies on `serde_json::from_value`: the value read as a `T`, or `None`
/// where its shape does not fit `T`.
#[verifier::external_body]
pub(crate) fn value_into<T: serde::de::DeserializeOwned>(v: &serde_json::Value) -> (r: Option<T>) {
    serde_json::from_value(v.clone()).ok()
}

} // verus!
