//! Errors of the workflow, and their classification into transient and fatal.

use crate::constants::{DURATION_COMPUTING_MARKER, SUCCESS_CODE};
use crate::text::{contains_seq, str_contains, str_equal};
use vstd::prelude::*;

verus! {

/// Everything that can stop a workflow step.
#[derive(Clone, Debug, PartialEq)]
pub enum IflyrecError {
    /// The server refused the request: its response code and description.
    ApiError { code: String, desc: String },
    /// The HTTP layer failed.
    RequestError(String),
    /// A JSON answer could not be decoded.
    JsonError(String),
    /// A local file could not be read.
    IoError(String),
    /// The order is not listed yet.
    OrderProcessing(String),
    /// The server answered with success but without a successful order id.
    OrderIdUnavailable,
    /// The duration endpoint refused the file.
    DurationCalculationError(String),
    /// The upload registration did not hand out a file identifier.
    RegistrationError(String),
    /// The final upload block was refused.
    UploadError(String),
    /// No session credential is available.
    AuthError(String),
    /// An argument cannot be used.
    InvalidParameter(String),
    /// The credential store could not be read.
    DatabaseError(String),
    /// Any other condition.
    Unknown(String),
}

/// Text of the error made from a success code that reached error mapping.
pub open spec fn unexpected_success_text(desc: Seq<char>) -> Seq<char> {
    "Unexpected error mapping for success code: "@ + desc
}

/// `e` is the error that a response with `code` and `desc` stands for: an API error
/// carrying both, or, for the success code, an unexpected-mapping error.
pub open spec fn is_api_error_for(e: IflyrecError, code: Seq<char>, desc: Seq<char>) -> bool {
    if code == SUCCESS_CODE@ {
        e matches IflyrecError::Unknown(m) && m@ == unexpected_success_text(desc)
    } else {
        e matches IflyrecError::ApiError { code: c, desc: d } && c@ == code && d@ == desc
    }
}

/// Maps a response code and description to an error.
pub fn map_api_error(code: &str, desc: &str) -> (e: IflyrecError)
    ensures
        is_api_error_for(e, code@, desc@),
{
    if str_equal(code, SUCCESS_CODE) {
        let mut m = String::from_str("Unexpected error mapping for success code: ");
        m.append(desc);
        IflyrecError::Unknown(m)
    } else {
        IflyrecError::ApiError { code: String::from_str(code), desc: String::from_str(desc) }
    }
}

/// Errors after which the same request may succeed when tried again: an order
/// refused while the server still computes the audio duration, and an order
/// that is not listed yet.
pub open spec fn is_transient(e: IflyrecError) -> bool {
    match e {
        IflyrecError::ApiError { desc, .. } => contains_seq(desc@, DURATION_COMPUTING_MARKER@),
        IflyrecError::OrderProcessing(_) => true,
        _ => false,
    }
}

/// Classifies `e` as transient (worth another attempt) or fatal.
pub fn is_retryable(e: &IflyrecError) -> (b: bool)
    ensures
        b == is_transient(*e),
{
    match e {
        IflyrecError::ApiError { desc, .. } => str_contains(desc.as_str(), DURATION_COMPUTING_MARKER),
        IflyrecError::OrderProcessing(_) => true,
        _ => false,
    }
}

} // verus!
