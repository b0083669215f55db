//! A minimal model of JSON documents, together with the trusted bridge to
//! the `serde_json` parser.
//!
//! The identity document is a JSON object whose recognized members are
//! strings; everything else in a body only matters insofar as it is not a
//! string or not an object. The model therefore keeps string and object
//! structure exactly and collapses every other kind of JSON value into
//! [`JsonView::Other`].

use vstd::prelude::*;

verus! {

/// The mathematical shape of a parsed JSON value, as far as this library
/// needs to distinguish it: a string, an object (a map from member names to
/// values), or anything else (numbers, booleans, nulls, arrays).
pub ghost enum JsonView {
    Text(Seq<char>),
    Object(Map<Seq<char>, JsonView>),
    Other,
}

/// What `serde_json::from_str::<serde_json::Value>` returns on a given
/// text: `None` when the text is not valid JSON, otherwise the shape of
/// the parsed value. The result depends on the text alone.
pub uninterp spec fn json_of(s: Seq<char>) -> Option<JsonView>;

/// The shape held by a `serde_json::Value`, which Verus treats as opaque.
pub uninterp spec fn value_view(v: serde_json::Value) -> JsonView;

/// The members held by a `serde_json::Map`, keyed by member name. When a
/// body repeats a member name, the parser keeps a single entry for it, so
/// a map is a faithful model.
pub uninterp spec fn object_view(m: serde_json::Map<String, serde_json::Value>) -> Map<
    Seq<char>,
    JsonView,
>;

#[verifier::external_type_specification]
#[verifier::external_body]
pub struct ExValue(serde_json::Value);

#[verifier::external_type_specification]
#[verifier::external_body]
#[verifier::reject_recursive_types(K)]
#[verifier::reject_recursive_types(V)]
pub struct ExJsonMap<K, V>(serde_json::Map<K, V>);

/// Relies on `serde_json::from_str::<serde_json::Value>`: parses the text
/// as JSON, returning an error exactly when the text is not valid JSON.
/// The error is rendered into a non-empty diagnostic message.
#[verifier::external_body]
pub(crate) fn parse_json_text(s: &str) -> (r: Result<serde_json::Value, String>)
    ensures
        r is Ok <==> json_of(s@) is Some,
        r is Ok ==> value_view(r->Ok_0) == json_of(s@)->Some_0,
        r is Err ==> r->Err_0@.len() > 0,
{
    serde_json::from_str::<serde_json::Value>(s).map_err(
        |e| format!("failed to deserialize document: {e}"),
    )
}

/// Relies on `serde_json::Value::as_object`: returns the member map when
/// and only when the value is a JSON object.
#[verifier::external_body]
pub(crate) fn value_as_object(v: &serde_json::Value) -> (r: Option<
    &serde_json::Map<String, serde_json::Value>,
>)
    ensures
        r is Some <==> value_view(*v) is Object,
        r is Some ==> object_view(*r->Some_0) == value_view(*v)->Object_0,
{
    v.as_object()
}

/// Relies on `serde_json::Map::get`: looks a member up by name, returning
/// its value when and only when the name is present.
#[verifier::external_body]
pub(crate) fn object_get<'a>(
    m: &'a serde_json::Map<String, serde_json::Value>,
    key: &str,
) -> (r: Option<&'a serde_json::Value>)
    ensures
        r is Some <==> object_view(*m).dom().contains(key@),
        r is Some ==> value_view(*r->Some_0) == object_view(*m)[key@],
{
    m.get(key)
}

/// Relies on `serde_json::Value::as_str`: returns the characters when and
/// only when the value is a JSON string.
#[verifier::external_body]
pub(crate) fn value_as_str(v: &serde_json::Value) -> (r: Option<&str>)
    ensures
        r is Some <==> value_view(*v) is Text,
        r is Some ==> r->Some_0@ == value_view(*v)->Text_0,
{
    v.as_str()
}

} // verus!
