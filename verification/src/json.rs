use vstd::prelude::*;

verus! {

#[verifier::external_type_specification]
#[verifier::external_body]
pub struct ExValue(serde_json::Value);

#[verifier::external_type_specification]
#[verifier::external_body]
pub struct ExJsonError(serde_json::Error);

/// Whether a text is well-formed JSON, that is, whether parsing it
/// yields a document rather than an error. Parsing is a function of the
/// text alone, so this is well defined.
pub uninterp spec fn json_text_parses(s: Seq<char>) -> bool;

/// The document a well-formed JSON text parses to; a function of the
/// text alone, like `json_text_parses`.
pub uninterp spec fn json_document(s: Seq<char>) -> serde_json::Value;

/// The field a JSON document holds under a key: Some exactly when the
/// document is an object with that key.
pub uninterp spec fn json_field(v: serde_json::Value, key: Seq<char>) -> Option<serde_json::Value>;

/// The text a JSON document holds: Some exactly when the document is a
/// JSON string.
pub uninterp spec fn json_string_of(v: serde_json::Value) -> Option<Seq<char>>;

/// The elements a JSON document holds: Some exactly when the document is
/// a JSON array.
pub uninterp spec fn json_elements(v: serde_json::Value) -> Option<Seq<serde_json::Value>>;

/// Whether a JSON document is JSON null.
pub uninterp spec fn json_is_null(v: serde_json::Value) -> bool;

/// Relies on serde_json::from_str::<Value>: it parses any well-formed
/// JSON text into its document and fails on any other text, deciding by
/// the text alone.
#[verifier::external_body]
pub(crate) fn parse_json(s: &str) -> (r: Result<serde_json::Value, serde_json::Error>)
    ensures
        r is Ok <==> json_text_parses(s@),
        (r matches Result::Ok(v) ==> v == json_document(s@)),
{
    serde_json::from_str(s)
}

/// Relies on the Display impl of serde_json::Error for a human-readable
/// description of a parse failure.
#[verifier::external_body]
pub(crate) fn json_error_message(e: &serde_json::Error) -> String {
    format!("{}", e)
}

/// Relies on serde_json::Value::get with a string index: it looks the key
/// up when the document is an object and returns None otherwise.
#[verifier::external_body]
pub(crate) fn value_get<'a>(v: &'a serde_json::Value, key: &str) -> (r: Option<
    &'a serde_json::Value,
>)
    ensures
        r is Some <==> json_field(*v, key@) is Some,
        (r matches Option::Some(f) ==> json_field(*v, key@) == Option::Some(*f)),
{
    v.get(key)
}

/// Relies on serde_json::Value::as_str: Some exactly when the document is
/// a JSON string, carrying that string.
#[verifier::external_body]
pub(crate) fn value_as_str(v: &serde_json::Value) -> (r: Option<String>)
    ensures
        r is Some <==> json_string_of(*v) is Some,
        (r matches Option::Some(s) ==> json_string_of(*v) == Option::Some(s@)),
{
    v.as_str().map(|s| s.to_owned())
}

/// Relies on serde_json::Value::as_array: Some exactly when the document
/// is a JSON array, carrying its elements.
#[verifier::external_body]
pub(crate) fn value_as_array(v: &serde_json::Value) -> (r: Option<&Vec<serde_json::Value>>)
    ensures
        r is Some <==> json_elements(*v) is Some,
        (r matches Option::Some(a) ==> json_elements(*v) == Option::Some(a@)),
{
    v.as_array()
}

/// Relies on serde_json::Value::is_null: true exactly when the document
/// is JSON null.
#[verifier::external_body]
pub(crate) fn value_is_null(v: &serde_json::Value) -> (r: bool)
    ensures
        r == json_is_null(*v),
{
    v.is_null()
}

/// Relies on Clone for serde_json::Value: the clone equals the original.
#[verifier::external_body]
pub(crate) fn value_clone(v: &serde_json::Value) -> (r: serde_json::Value)
    ensures
        r == *v,
{
    v.clone()
}

} // verus!
