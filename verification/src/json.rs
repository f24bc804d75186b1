//! The boundary between JSON text and the backend's typed value model.
//!
//! Caller-supplied argument values arrive as JSON-encoded strings and must
//! become backend `convex::Value`s; results travel the opposite way. The
//! bridge never inspects the values themselves — they pass through opaquely —
//! so the conversions are performed by the `serde_json` and `convex` crates
//! behind the trusted items below. The verified code around them pins down
//! exactly when they succeed, how failures propagate, and — through the
//! named decodings and JSON texts — which value or text belongs to which
//! input.

use vstd::prelude::*;

use crate::errors::{error_from_anyhow, error_from_serde, ClientError};

verus! {

#[verifier::external_type_specification]
#[verifier::external_body]
pub struct ExSerdeJsonValue(serde_json::Value);

#[verifier::external_type_specification]
#[verifier::external_body]
pub struct ExConvexValue(convex::Value);

/// Whether a string is accepted as one argument value: it is a JSON
/// document that `serde_json` parses, whose value the backend's value model
/// represents. The exact set is given by the JSON grammar and the backend's
/// conversion rules; it depends on the characters of the string alone.
pub uninterp spec fn arg_accepted(s: Seq<char>) -> bool;

/// The backend value an accepted argument string decodes to. Like
/// [`arg_accepted`], it is determined by the characters of the string
/// alone; it is meaningful only where `arg_accepted` holds.
pub uninterp spec fn decoded_arg(s: Seq<char>) -> convex::Value;

/// The JSON text a backend value is re-encoded as: the serialization of
/// its JSON form. A function of the value alone.
pub uninterp spec fn json_text_of(v: convex::Value) -> Seq<char>;

/// The text a JSON value serializes to. A function of the value alone.
pub uninterp spec fn json_text(j: serde_json::Value) -> Seq<char>;

/// Why one argument string could not be decoded.
enum ArgDecodeFailure {
    /// The text is not valid JSON.
    Json(serde_json::Error),
    /// The JSON value is one the backend's value model cannot represent.
    Backend(anyhow::Error),
}

/// Relies on `serde_json::from_str` composed with
/// `convex::Value::try_from::<serde_json::Value>`: an argument string
/// decodes to a backend value exactly when it is valid JSON whose value the
/// backend's model accepts (all JSON numbers become the backend's one
/// floating-point kind). Neither call panics, and the outcome depends on
/// the characters of the string alone.
#[verifier::external_body]
fn decode_arg(s: &str) -> (r: Result<convex::Value, ArgDecodeFailure>)
    ensures
        r is Ok <==> arg_accepted(s@),
        r matches Ok(v) ==> v == decoded_arg(s@),
{
    match serde_json::from_str::<serde_json::Value>(s) {
        Ok(j) => match convex::Value::try_from(j) {
            Ok(v) => Ok(v),
            Err(e) => Err(ArgDecodeFailure::Backend(e)),
        },
        Err(e) => Err(ArgDecodeFailure::Json(e)),
    }
}

/// Relies on `serde_json::Value::from::<convex::Value>` (defined by the
/// `convex` crate): re-encodes a backend value as a JSON value, whose
/// serialization is the backend value's JSON text.
#[verifier::external_body]
fn json_of_convex(v: convex::Value) -> (r: serde_json::Value)
    ensures
        json_text(r) == json_text_of(v),
{
    serde_json::Value::from(v)
}

/// Relies on `serde_json::to_string`: serializes a JSON value to text. For a
/// `serde_json::Value` argument serialization cannot fail: its `Serialize`
/// implementation never errors and all of its object keys are strings, so
/// the call always returns `Ok`.
#[verifier::external_body]
fn json_to_string(j: &serde_json::Value) -> (r: Result<String, serde_json::Error>)
    ensures
        r is Ok,
        r matches Ok(s) ==> s@ == json_text(*j),
{
    serde_json::to_string(j)
}

/// Parses one caller-supplied argument value, given as a JSON-encoded
/// string, into the backend's value model.
///
/// Succeeds exactly on accepted strings. Text that is not valid JSON is
/// reported as `InternalError`, as is a JSON value the backend cannot
/// represent; no input makes this function panic.
pub fn parse_arg_value(s: &str) -> (r: Result<convex::Value, ClientError>)
    ensures
        r is Ok <==> arg_accepted(s@),
        r matches Ok(v) ==> v == decoded_arg(s@),
        r matches Err(e) ==> e is InternalError,
{
    match decode_arg(s) {
        Ok(v) => Ok(v),
        Err(ArgDecodeFailure::Json(e)) => Err(error_from_serde(e)),
        Err(ArgDecodeFailure::Backend(e)) => Err(error_from_anyhow(e)),
    }
}

/// Re-encodes a backend value as a JSON string, the form in which results
/// and error payloads cross back to the foreign caller.
pub fn encode_value(v: convex::Value) -> (r: Result<String, ClientError>)
    ensures
        r is Ok,
        r matches Ok(s) ==> s@ == json_text_of(v),
{
    match json_to_string(&json_of_convex(v)) {
        Ok(s) => Ok(s),
        Err(e) => Err(error_from_serde(e)),
    }
}

} // verus!
