//! Normalizing backend function results.
//!
//! Every backend call — one-shot or subscription — produces a three-way
//! outcome: a success value, an application-raised error with a structured
//! payload, or a server-raised error message. The functions here convert
//! each outcome into what crosses back to the foreign caller: a JSON string
//! on success, or one of the error kinds of [`ClientError`]; for
//! subscriptions, the observer callback to invoke.

use vstd::prelude::*;

use crate::errors::ClientError;
use crate::json::{encode_value, json_text_of};

verus! {

#[verifier::external_type_specification]
#[verifier::external_body]
pub struct ExFunctionResult(convex::FunctionResult);

/// The outcome of one backend function run, with the payloads still in the
/// backend's value model.
pub enum FunctionOutcome {
    /// The function completed and returned a value.
    Value(convex::Value),
    /// The function raised an application-level error with a structured
    /// payload.
    ConvexError { message: String, data: convex::Value },
    /// The backend reported a failure outside application control.
    ErrorMessage(String),
}

/// The [`FunctionOutcome`] a backend result holds: the same three-way
/// tag with the same payloads. A function of the result value alone.
pub uninterp spec fn outcome_of(r: convex::FunctionResult) -> FunctionOutcome;

/// Relies on `convex::FunctionResult`: its three variants carry exactly a
/// value, an application error's message and payload, or a server error
/// message; this moves each into [`FunctionOutcome`] unchanged.
#[verifier::external_body]
fn split_function_result(r: convex::FunctionResult) -> (outcome: FunctionOutcome)
    ensures
        outcome == outcome_of(r),
{
    match r {
        convex::FunctionResult::Value(v) => FunctionOutcome::Value(v),
        convex::FunctionResult::ConvexError(e) => FunctionOutcome::ConvexError {
            message: e.message,
            data: e.data,
        },
        convex::FunctionResult::ErrorMessage(m) => FunctionOutcome::ErrorMessage(m),
    }
}

/// Converts the outcome of a one-shot call (query, mutation or action) into
/// what the caller receives.
///
/// A success value is re-encoded as a JSON string. An application-raised
/// error becomes [`ClientError::ConvexError`] carrying its payload
/// re-encoded as JSON. A server-raised error becomes
/// [`ClientError::ServerError`] with the original message.
pub fn handle_function_outcome(outcome: FunctionOutcome) -> (r: Result<String, ClientError>)
    ensures
        r is Ok <==> outcome is Value,
        r matches Err(e) ==> (e is ConvexError || e is ServerError),
        outcome matches FunctionOutcome::Value(v) ==> (r matches Ok(s) && s@ == json_text_of(v)),
        outcome matches FunctionOutcome::ConvexError { message, data } ==> (r matches Err(e)
            && e matches ClientError::ConvexError { data: d } && d@ == json_text_of(data)),
        outcome matches FunctionOutcome::ErrorMessage(m) ==> (r matches Err(e) && e matches
            ClientError::ServerError { msg } && msg@ == m@),
{
    match outcome {
        FunctionOutcome::Value(v) => encode_value(v),
        FunctionOutcome::ConvexError { message: _message, data } => match encode_value(data) {
            Ok(encoded) => Err(ClientError::ConvexError { data: encoded }),
            Err(e) => Err(e),
        },
        FunctionOutcome::ErrorMessage(m) => Err(ClientError::ServerError { msg: m }),
    }
}

/// Converts a backend function result into what the caller receives.
///
/// A success value yields its JSON text. An application-raised error
/// yields [`ClientError::ConvexError`] with the payload re-encoded as
/// JSON; a server-raised error yields [`ClientError::ServerError`] with
/// the original message. Whatever the result was, a failure reported to
/// the caller came from the remote function or the backend, never from
/// the bridge itself.
pub fn handle_direct_function_result(result: convex::FunctionResult) -> (r: Result<
    String,
    ClientError,
>)
    ensures
        r is Ok <==> outcome_of(result) is Value,
        outcome_of(result) matches FunctionOutcome::Value(v) ==> (r matches Ok(s) && s@
            == json_text_of(v)),
        outcome_of(result) matches FunctionOutcome::ConvexError { message, data } ==> (r matches
            Err(e) && e matches ClientError::ConvexError { data: d } && d@ == json_text_of(data)),
        outcome_of(result) matches FunctionOutcome::ErrorMessage(m) ==> (r matches Err(e)
            && e matches ClientError::ServerError { msg } && msg@ == m@),
        r matches Err(e) ==> (e is ConvexError || e is ServerError),
{
    handle_function_outcome(split_function_result(result))
}

} // verus!
