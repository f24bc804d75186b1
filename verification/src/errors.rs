//! The caller-facing error taxonomy.
//!
//! Every failure path of the bridge is normalized into exactly one of the
//! three kinds below before it crosses back to the foreign caller.

use vstd::prelude::*;

verus! {

/// An error returned to the foreign caller by any bridge operation.
#[derive(Debug)]
pub enum ClientError {
    /// A failure that occurs inside the bridge itself: a task that could not
    /// be joined, malformed caller-supplied JSON, a failed connection attempt
    /// or a marshaling failure.
    InternalError { msg: String },
    /// An application-specific error deliberately raised inside a remote
    /// backend function; carries the function's structured payload re-encoded
    /// as a JSON string.
    ConvexError { data: String },
    /// An unexpected server-side failure surfaced by the backend outside
    /// application control.
    ServerError { msg: String },
}

#[verifier::external_type_specification]
#[verifier::external_body]
pub struct ExAnyhowError(anyhow::Error);

#[verifier::external_type_specification]
#[verifier::external_body]
pub struct ExSerdeJsonError(serde_json::Error);

#[verifier::external_type_specification]
#[verifier::external_body]
pub struct ExJoinError(tokio::task::JoinError);

impl ClientError {
    /// A human-readable rendering of the error, in place of `Display`.
    pub fn describe(&self) -> (r: String)
        ensures
            self matches ClientError::InternalError { msg } ==> r@ == "InternalError: "@ + msg@,
            self matches ClientError::ConvexError { data } ==> r@ == "ConvexError: "@ + data@,
            self matches ClientError::ServerError { msg } ==> r@ == "ServerError: "@ + msg@,
    {
        match self {
            ClientError::InternalError { msg } => concat_strings("InternalError: ", msg.as_str()),
            ClientError::ConvexError { data } => concat_strings("ConvexError: ", data.as_str()),
            ClientError::ServerError { msg } => concat_strings("ServerError: ", msg.as_str()),
        }
    }
}

/// Relies on `alloc`'s `String` concatenation through `format!`.
#[verifier::external_body]
fn concat_strings(prefix: &str, rest: &str) -> (r: String)
    ensures
        r@ == prefix@ + rest@,
{
    format!("{prefix}{rest}")
}

/// The text `anyhow::Error`'s `Display` implementation renders: the error
/// chain's top message. A function of the error value alone.
pub uninterp spec fn anyhow_message(e: anyhow::Error) -> Seq<char>;

/// Relies on `anyhow::Error`'s `Display` implementation: renders the error
/// chain's top message as text.
#[verifier::external_body]
fn describe_anyhow(e: &anyhow::Error) -> (r: String)
    ensures
        r@ == anyhow_message(*e),
{
    e.to_string()
}

/// Normalizes a failure of the backend client (reported as an
/// `anyhow::Error`) into the internal error kind, keeping its message.
pub fn error_from_anyhow(e: anyhow::Error) -> (r: ClientError)
    ensures
        r matches ClientError::InternalError { msg } && msg@ == anyhow_message(e),
{
    ClientError::InternalError { msg: describe_anyhow(&e) }
}

/// Normalizes a failure to join a spawned task into the internal error kind.
pub fn error_from_join(_e: tokio::task::JoinError) -> (r: ClientError)
    ensures
        r matches ClientError::InternalError { msg } && msg@ == "join error"@,
{
    ClientError::InternalError { msg: "join error".to_owned() }
}

/// Normalizes a JSON parse or serialization failure into the internal error
/// kind.
pub fn error_from_serde(_e: serde_json::Error) -> (r: ClientError)
    ensures
        r matches ClientError::InternalError { msg } && msg@ == "JSON error"@,
{
    ClientError::InternalError { msg: "JSON error".to_owned() }
}

} // verus!
