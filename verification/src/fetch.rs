//! What a page fetch reports, step by step.
//!
//! The caller sends the request and reads the body; between the two stands
//! the decision on the response's status.

use vstd::prelude::*;
use vstd::string::*;

verus! {

/// How long a fetch may take, in seconds.
pub const FETCH_TIMEOUT_SECS: u64 = 5;

/// A status code of the successful class.
pub open spec fn is_success(code: u16) -> bool {
    200 <= code < 300
}

/// Whether a status code is of the successful class.
pub fn status_is_success(code: u16) -> (r: bool)
    ensures
        r == is_success(code),
{
    200 <= code && code < 300
}

/// What follows the sending of the request, given the response's status
/// code and status line, or why no response came.
pub open spec fn after_send_spec(sent: Result<(u16, String), String>) -> Result<(), Seq<char>> {
    match sent {
        Err(why) => Err("Network error: "@ + why@),
        Ok((code, line)) => if is_success(code) {
            Ok(())
        } else {
            Err("HTTP error: "@ + line@)
        },
    }
}

/// What the fetch yields, given the body or why it could not be read.
pub open spec fn after_body_spec(body: Result<String, String>) -> Result<Seq<char>, Seq<char>> {
    match body {
        Ok(text) => Ok(text@),
        Err(why) => Err("Failed to read body: "@ + why@),
    }
}

/// Decides, once the request was sent, whether the body is to be read.
///
/// `sent` holds the response's status code and status line, or why no
/// response came. `Ok` means: read the body. A failed request and a response
/// outside the successful class end the fetch with their message.
pub fn after_send(sent: Result<(u16, String), String>) -> (r: Result<(), String>)
    ensures
        match after_send_spec(sent) {
            Ok(_) => r is Ok,
            Err(message) => r matches Err(m) && m@ == message,
        },
{
    match sent {
        Err(why) => Err(String::from_str("Network error: ").concat(why.as_str())),
        Ok((code, line)) => {
            if status_is_success(code) {
                Ok(())
            } else {
                Err(String::from_str("HTTP error: ").concat(line.as_str()))
            }
        },
    }
}

/// Ends the fetch with the body, or with the message for a body that could
/// not be read.
pub fn after_body(body: Result<String, String>) -> (r: Result<String, String>)
    ensures
        match after_body_spec(body) {
            Ok(text) => r matches Ok(t) && t@ == text,
            Err(message) => r matches Err(m) && m@ == message,
        },
{
    match body {
        Ok(text) => Ok(text),
        Err(why) => Err(String::from_str("Failed to read body: ").concat(why.as_str())),
    }
}

} // verus!
