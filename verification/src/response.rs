//! Classification of response units.
//!
//! Every protocol response carries one or more units, each classed by the
//! server as a success, a warning, or an error. The helpers here turn that
//! classification into the engine's `Result` discipline: warnings count as
//! successes, errors surface the server's fault.

use vstd::prelude::*;

use crate::error::{EwsError, ResponseFault};
use crate::text::{decimal_string, spec_decimal_digits};

verus! {

/// One classified unit of a protocol response.
#[derive(Debug, Clone, PartialEq, Eq)]
pub enum ResponseClass<T> {
    /// The unit succeeded; the payload is the decoded message.
    Success(T),
    /// The unit succeeded with a server-side anomaly; treated as a success.
    Warning(T),
    /// The unit failed with a server-reported fault.
    Error(ResponseFault),
}

/// The `Result` that classifying one response unit yields: the payload for a
/// success or a warning, the fault wrapped as an error otherwise.
pub open spec fn spec_process_unit<T>(response_class: ResponseClass<T>) -> Result<T, EwsError> {
    match response_class {
        ResponseClass::Success(message) => Ok(message),
        ResponseClass::Warning(message) => Ok(message),
        ResponseClass::Error(fault) => Err(EwsError::ResponseError(fault)),
    }
}

/// Turns the class of one response unit into a `Result`: successes and
/// warnings yield their payload, errors surface the server's fault.
pub fn process_response_message_class<T>(response_class: ResponseClass<T>) -> (r: Result<
    T,
    EwsError,
>)
    ensures
        r == spec_process_unit(response_class),
{
    match response_class {
        ResponseClass::Success(message) => Ok(message),
        ResponseClass::Warning(message) => Ok(message),
        ResponseClass::Error(fault) => Err(EwsError::ResponseError(fault)),
    }
}

/// The message reported when a response carries the wrong number of units.
pub open spec fn spec_count_mismatch_message(expected: int, actual: int) -> Seq<char> {
    "response contained an unexpected number of response messages: expected "@
        + spec_decimal_digits(expected) + ", got "@ + spec_decimal_digits(actual)
}

/// Checks that a response carries exactly the number of units that were
/// requested; a mismatch is a local processing error reporting both counts,
/// never silently truncated or padded.
pub fn validate_response_message_count<T>(
    response_messages: &Vec<ResponseClass<T>>,
    expected_len: usize,
) -> (r: Result<(), EwsError>)
    ensures
        response_messages@.len() == expected_len <==> r matches Ok(()),
        response_messages@.len() != expected_len ==> (r matches Err(e) && e matches
            EwsError::Processing { message } && message@ == spec_count_mismatch_message(
            expected_len as int,
            response_messages@.len() as int,
        )),
{
    if response_messages.len() != expected_len {
        let mut message = String::from_str(
            "response contained an unexpected number of response messages: expected ",
        );
        message.append(decimal_string(expected_len as u64).as_str());
        message.append(", got ");
        message.append(decimal_string(response_messages.len() as u64).as_str());
        return Err(EwsError::Processing { message });
    }
    Ok(())
}

/// For responses where exactly one unit is expected, extracts the first unit.
///
/// An empty response is a processing error; extra units beyond the first are
/// ignored (the first answers the one request that was made).
pub fn single_response_or_error<T>(responses: Vec<T>) -> (r: Result<T, EwsError>)
    ensures
        responses@.len() == 0 ==> (r matches Err(e) && e matches EwsError::Processing { message }
            && message@ == "expected 1 response message, got none"@),
        responses@.len() > 0 ==> r == Ok::<T, EwsError>(responses@[0]),
{
    let mut responses = responses;
    if responses.len() == 0 {
        return Err(
            EwsError::Processing {
                message: String::from_str("expected 1 response message, got none"),
            },
        );
    }
    let first = responses.remove(0);
    Ok(first)
}

} // verus!
