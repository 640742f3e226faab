use vstd::prelude::*;

use crate::classify::first_non_ws;

verus! {

// `serde_json`'s value and object types run through the classifier's results
// opaquely: the library stores and hands them back, but never looks inside.

#[verifier::external_type_specification]
#[verifier::external_body]
pub struct ExJsonValue(serde_json::Value);

#[verifier::external_type_specification]
#[verifier::external_body]
#[verifier::reject_recursive_types(K)]
#[verifier::reject_recursive_types(V)]
pub struct ExJsonMap<K, V>(serde_json::Map<K, V>);

/// The text that `String::from_utf8_lossy` decodes from the given bytes.
/// It depends on the bytes alone.
pub uninterp spec fn lossy_utf8(b: Seq<u8>) -> Seq<char>;

/// What `serde_json::from_str::<Map<String, Value>>` makes of the given
/// text: `Some` of the parsed object when the text is one JSON object,
/// `None` otherwise. It depends on the text alone.
pub uninterp spec fn object_parse(t: Seq<char>) -> Option<
    serde_json::Map<String, serde_json::Value>,
>;

/// What `serde_json::from_str::<Vec<Map<String, Value>>>` makes of the
/// given text: `Some` of the parsed objects, in the order they stand in the
/// array, when the text is one JSON array whose elements are all objects,
/// `None` otherwise. It depends on the text alone.
pub uninterp spec fn object_array_parse(t: Seq<char>) -> Option<
    Seq<serde_json::Map<String, serde_json::Value>>,
>;

/// Relies on `String::from_utf8_lossy`: decodes the bytes as UTF-8,
/// replacing invalid sequences, and never fails; empty input decodes to the
/// empty string.
#[verifier::external_body]
pub(crate) fn utf8_lossy(b: &[u8]) -> (r: String)
    ensures
        r@ == lossy_utf8(b@),
        b@.len() == 0 ==> r@.len() == 0,
{
    String::from_utf8_lossy(b).into_owned()
}

/// Relies on `serde_json::from_str::<Map<String, Value>>`: succeeds exactly
/// on texts that are one JSON object. A JSON object's first character after
/// leading whitespace is `{`, and the empty text is not valid JSON.
#[verifier::external_body]
pub(crate) fn parse_object(t: &str) -> (r: Option<serde_json::Map<String, serde_json::Value>>)
    ensures
        r == object_parse(t@),
        r is Some ==> first_non_ws(t@) == Some('{'),
        t@.len() == 0 ==> r is None,
{
    serde_json::from_str::<serde_json::Map<String, serde_json::Value>>(t).ok()
}

/// Relies on `serde_json::from_str::<Vec<Map<String, Value>>>`: succeeds
/// exactly on texts that are one JSON array whose elements are all objects,
/// and keeps the elements in array order. A JSON array's first character
/// after leading whitespace is `[`.
#[verifier::external_body]
pub(crate) fn parse_object_array(t: &str) -> (r: Option<
    Vec<serde_json::Map<String, serde_json::Value>>,
>)
    ensures
        match r {
            Some(items) => object_array_parse(t@) == Some(items@),
            None => object_array_parse(t@) is None,
        },
        r is Some ==> first_non_ws(t@) == Some('['),
{
    serde_json::from_str::<Vec<serde_json::Map<String, serde_json::Value>>>(t).ok()
}

} // verus!
