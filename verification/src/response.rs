//! The envelopes in which answers to clients are written.

use vstd::prelude::*;

verus! {

/// The result field of an answer that reports success.
#[derive(Clone, Copy, Debug, PartialEq, Eq, Structural)]
pub enum SuccessResult {
    /// Written `success`.
    Success,
}

/// The result field of an answer that reports an error.
#[derive(Clone, Copy, Debug, PartialEq, Eq, Structural)]
pub enum ErrorResult {
    /// Written `error`.
    Error,
}

/// The message of an answer that reports success: the empty text.
#[derive(Clone, Copy, Debug, PartialEq, Eq, Structural)]
pub enum EmptyMsg {
    Empty,
}

/// What kind of error an answer reports.
#[derive(Clone, Copy, Debug, PartialEq, Eq, Structural)]
pub enum ErrorCode {
    /// Written `BAD_REQUEST`.
    BadRequest,
    /// Written `BAD_EVENT_QUEUE_ID`.
    BadEventQueueId,
}

impl SuccessResult {
    /// The text of the field.
    pub fn as_str(&self) -> (r: &'static str)
        ensures
            r@ == "success"@,
    {
        "success"
    }
}

impl ErrorResult {
    /// The text of the field.
    pub fn as_str(&self) -> (r: &'static str)
        ensures
            r@ == "error"@,
    {
        "error"
    }
}

impl EmptyMsg {
    /// The text of the field.
    pub fn as_str(&self) -> (r: &'static str)
        ensures
            r@ == ""@,
    {
        ""
    }
}

impl ErrorCode {
    /// The name of the code.
    pub open spec fn name(self) -> Seq<char> {
        match self {
            ErrorCode::BadRequest => "BAD_REQUEST"@,
            ErrorCode::BadEventQueueId => "BAD_EVENT_QUEUE_ID"@,
        }
    }

    /// The name of the code.
    pub fn as_str(&self) -> (r: &'static str)
        ensures
            r@ == self.name(),
    {
        match self {
            ErrorCode::BadRequest => "BAD_REQUEST",
            ErrorCode::BadEventQueueId => "BAD_EVENT_QUEUE_ID",
        }
    }
}

/// An answer that reports success; the fields of `inner` are written beside
/// the result and the message.
#[derive(Debug)]
pub struct JsonSuccess<T> {
    pub result: SuccessResult,
    pub msg: EmptyMsg,
    pub inner: T,
}

/// An answer that reports an error.
#[derive(Debug)]
pub struct JsonError {
    pub result: ErrorResult,
    pub msg: String,
    pub code: ErrorCode,
}

/// The answer that reports success and carries `inner`.
pub fn json_success<T>(inner: T) -> (r: JsonSuccess<T>)
    ensures
        r.result == SuccessResult::Success,
        r.msg == EmptyMsg::Empty,
        r.inner == inner,
{
    JsonSuccess { result: SuccessResult::Success, msg: EmptyMsg::Empty, inner }
}

/// The answer that reports a bad request with `message`.
pub fn json_error(message: String) -> (r: JsonError)
    ensures
        r.result == ErrorResult::Error,
        r.msg == message,
        r.code == ErrorCode::BadRequest,
{
    JsonError { result: ErrorResult::Error, msg: message, code: ErrorCode::BadRequest }
}

/// The answer that reports the error `code` with `message`.
pub fn json_error_code(message: String, code: ErrorCode) -> (r: JsonError)
    ensures
        r.result == ErrorResult::Error,
        r.msg == message,
        r.code == code,
{
    JsonError { result: ErrorResult::Error, msg: message, code }
}

} // verus!
