//! Reading numbers out of a JSON document (through `serde_json`).

use vstd::prelude::*;

verus! {

/// Whether `serde_json` reads `text` as one JSON value.
pub uninterp spec fn json_accepts(text: Seq<char>) -> bool;

/// The unsigned integer at JSON pointer `pointer` in the document `text`, if
/// there is a value there and it is one.
pub uninterp spec fn json_u64_at(text: Seq<char>, pointer: Seq<char>) -> Option<u64>;

/// The signed integer at JSON pointer `pointer` in the document `text`, if
/// there is a value there and it is one.
pub uninterp spec fn json_i64_at(text: Seq<char>, pointer: Seq<char>) -> Option<i64>;

/// The readings of one JSON value as an integer.
pub struct JsonNumber {
    pub as_u64: Option<u64>,
    pub as_i64: Option<i64>,
}

/// `serde_json::from_str::<serde_json::Value>(text)`, then
/// `Value::pointer(pointer)`, read with `Value::as_u64` and `Value::as_i64`.
/// The parse fails exactly when `text` is not accepted; the readings are
/// named.
#[verifier::external_body]
pub(crate) fn json_number_at(text: &str, pointer: &str) -> (r: Result<JsonNumber, serde_json::Error>)
    ensures
        r is Ok <==> json_accepts(text@),
        r matches Ok(n) ==> n.as_u64 == json_u64_at(text@, pointer@) && n.as_i64 == json_i64_at(
            text@,
            pointer@,
        ),
{
    serde_json::from_str::<serde_json::Value>(text).map(
        |root| {
            let found = root.pointer(pointer);
            JsonNumber {
                as_u64: found.and_then(|v| v.as_u64()),
                as_i64: found.and_then(|v| v.as_i64()),
            }
        },
    )
}

} // verus!
