//! The query context a `generate` call carries, decoded from JSON.
use vstd::prelude::*;

verus! {

#[verifier::external_type_specification]
#[verifier::external_body]
pub struct ExJsonValue(serde_json::Value);

/// The query constraints of a `generate` call. The runtime only decodes it
/// and hands it to the plugin; it never looks inside.
pub type QueryContext = serde_json::Value;

/// What decoding `text` as JSON reports: `None` where the text is one JSON
/// value (with surrounding whitespace), else the decoder's error message.
pub uninterp spec fn json_decode_error(text: Seq<char>) -> Option<Seq<char>>;

/// Relies on `serde_json::from_str::<serde_json::Value>`, which either decodes
/// the whole text or fails with an error; the error's text (its `Display`)
/// depends on the input alone.
#[verifier::external_body]
pub(crate) fn decode_context(text: &str) -> (r: Result<QueryContext, String>)
    ensures
        r is Ok <==> json_decode_error(text@) is None,
        r matches Err(m) ==> json_decode_error(text@) == Some(m@),
{
    serde_json::from_str::<serde_json::Value>(text).map_err(|e| e.to_string())
}

} // verus!
