//! Errors reported by the client.
use vstd::prelude::*;

verus! {

/// An error of a chat call. Transport and decoding failures carry the message of the
/// underlying error.
#[derive(Debug, Clone, PartialEq, Eq)]
pub enum Error {
    /// The HTTP transport failed.
    Http(String),
    /// The provider answered with a non-success status.
    Api { status: u16, message: String },
    /// A body or event payload was not the JSON that was expected.
    Json(String),
    /// The provider reported an error inside an event stream.
    Stream(String),
}

/// The model of [`Error`], with text as `Seq<char>` and lists as `Seq`.
pub enum ErrorModel {
    Http(Seq<char>),
    Api { status: u16, message: Seq<char> },
    Json(Seq<char>),
    Stream(Seq<char>),
}

impl DeepView for Error {
    type V = ErrorModel;

    open spec fn deep_view(&self) -> ErrorModel {
        match self {
            Error::Http(m) => ErrorModel::Http(m@),
            Error::Api { status, message } => ErrorModel::Api { status: *status, message: message@ },
            Error::Json(m) => ErrorModel::Json(m@),
            Error::Stream(m) => ErrorModel::Stream(m@),
        }
    }
}

/// Whether an HTTP status is a success (2xx), as `reqwest::StatusCode::is_success` says.
pub open spec fn is_success_status(status: u16) -> bool {
    200 <= status <= 299
}

/// Whether an HTTP status is a success (2xx): only then is the body decoded.
pub fn is_success(status: u16) -> (res: bool)
    ensures
        res == is_success_status(status),
{
    200 <= status && status <= 299
}

/// The outcome of an HTTP exchange before its body is decoded: a success status gives
/// `Ok`, any other status the `Api` error with the body text as message.
pub fn check_status(status: u16, body_text: String) -> (res: Result<(), Error>)
    ensures
        is_success_status(status) <==> res is Ok,
        res matches Err(e) ==> e.deep_view() == (ErrorModel::Api {
            status,
            message: body_text@,
        }),
{
    if is_success(status) {
        Ok(())
    } else {
        Err(Error::Api { status, message: body_text })
    }
}

} // verus!
