//! What can go wrong in a capture session.
use std::time::Duration;

use vstd::prelude::*;
use vstd::string::*;

use crate::text::joined;

verus! {

#[derive(Debug)]
pub enum PinrayError {
    InvalidConfig(String),
    BackendUnavailable(String),
    BackendNotSelected,
    Timeout(Duration),
    Unsupported(String),
    Platform(String),
}

/// How a duration is written out for debugging.
pub uninterp spec fn duration_text(duration: Duration) -> Seq<char>;

/// Formats a duration with its `Debug` implementation, which writes the same
/// duration the same way every time.
#[verifier::external_body]
fn write_duration(duration: &Duration) -> (text: String)
    ensures
        text@ == duration_text(*duration),
{
    format!("{duration:?}")
}

/// What an error says of itself.
pub open spec fn message_text(error: PinrayError) -> Seq<char> {
    match error {
        PinrayError::InvalidConfig(reason) => "invalid session configuration: "@ + reason@,
        PinrayError::BackendUnavailable(reason) => "backend unavailable: "@ + reason@,
        PinrayError::BackendNotSelected => "capture backend not selected"@,
        PinrayError::Timeout(limit) => "capture timed out after "@ + duration_text(limit),
        PinrayError::Unsupported(reason) => "operation not supported: "@ + reason@,
        PinrayError::Platform(reason) => "platform error: "@ + reason@,
    }
}

impl PinrayError {
    /// The error in words.
    pub fn message(&self) -> (text: String)
        ensures
            text@ == message_text(*self),
    {
        match self {
            PinrayError::InvalidConfig(reason) => joined(
                "invalid session configuration: ",
                reason.as_str(),
            ),
            PinrayError::BackendUnavailable(reason) => joined(
                "backend unavailable: ",
                reason.as_str(),
            ),
            PinrayError::BackendNotSelected => "capture backend not selected".to_owned(),
            PinrayError::Timeout(limit) => timeout_message(write_duration(limit).as_str()),
            PinrayError::Unsupported(reason) => joined(
                "operation not supported: ",
                reason.as_str(),
            ),
            PinrayError::Platform(reason) => joined("platform error: ", reason.as_str()),
        }
    }
}

/// What a failed call is reported as: where, and what the system said.
pub open spec fn failure_text(context: Seq<char>, error: Seq<char>) -> Seq<char> {
    context + ": "@ + error
}

/// The description of a call that failed.
pub fn failure(context: &str, error: &str) -> (text: String)
    ensures
        text@ == failure_text(context@, error@),
{
    let mut text: String = joined(context, ": ");
    text.append(error);
    text
}

/// What a timeout says of itself, given the limit in words.
pub fn timeout_message(limit: &str) -> (text: String)
    ensures
        text@ == "capture timed out after "@ + limit@,
{
    joined("capture timed out after ", limit)
}

pub type Result<T> = std::result::Result<T, PinrayError>;

/// `result` is an [`PinrayError::InvalidConfig`] whose message is `text`.
pub open spec fn is_invalid_config<T>(result: Result<T>, text: Seq<char>) -> bool {
    result matches Err(PinrayError::InvalidConfig(message)) && message@ == text
}

/// `result` is an [`PinrayError::BackendUnavailable`] whose message is `text`.
pub open spec fn is_unavailable<T>(result: Result<T>, text: Seq<char>) -> bool {
    result matches Err(PinrayError::BackendUnavailable(message)) && message@ == text
}

/// `result` is an [`PinrayError::Unsupported`] whose message is `text`.
pub open spec fn is_unsupported<T>(result: Result<T>, text: Seq<char>) -> bool {
    result matches Err(PinrayError::Unsupported(message)) && message@ == text
}

/// `result` is an [`PinrayError::Platform`] whose message is `text`.
pub open spec fn is_platform<T>(result: Result<T>, text: Seq<char>) -> bool {
    result matches Err(PinrayError::Platform(message)) && message@ == text
}

/// `result` reports that nothing arrived in time.
pub open spec fn is_timeout<T>(result: Result<T>) -> bool {
    result matches Err(PinrayError::Timeout(_))
}

/// An error names its kind, and then tells the reason that it was made with.
pub proof fn messages_tell_kind_and_reason(error: PinrayError, text: String)
    requires
        call_ensures(PinrayError::message, (&error,), text),
    ensures
        error matches PinrayError::InvalidConfig(reason) ==> text@
            == "invalid session configuration: "@ + reason@,
        error matches PinrayError::BackendUnavailable(reason) ==> text@ == "backend unavailable: "@
            + reason@,
        error is BackendNotSelected ==> text@ == "capture backend not selected"@,
        error matches PinrayError::Timeout(limit) ==> text@ == "capture timed out after "@
            + duration_text(limit),
        error matches PinrayError::Unsupported(reason) ==> text@ == "operation not supported: "@
            + reason@,
        error matches PinrayError::Platform(reason) ==> text@ == "platform error: "@ + reason@,
{
}

/// A failed call is told by where it was made, a colon, and what was said.
pub proof fn failures_tell_where_and_what(context: &str, error: &str, text: String)
    requires
        call_ensures(failure, (context, error), text),
    ensures
        text@ == context@ + ": "@ + error@,
{
}

/// A timeout tells its limit.
pub proof fn timeouts_tell_their_limit(limit: &str, text: String)
    requires
        call_ensures(timeout_message, (limit,), text),
    ensures
        text@ == "capture timed out after "@ + limit@,
{
}

} // verus!
