//! The one error that a request can end in.

use vstd::prelude::*;

verus! {

/// The status of an error that no HTTP response stands behind: the request
/// never got an answer, or the answer's body could not be read as JSON. No
/// response that counts as an error carries it.
pub const NO_RESPONSE: i16 = 0;

/// How a request failed: a status and a message.
///
/// For a response that counts as an error the status is that of the
/// response. A failure below HTTP has the status `NO_RESPONSE`.
#[derive(Debug)]
pub struct RequestError {
    pub status: i16,
    pub message: String,
}

/// A `RequestError` as plain values.
pub struct RequestErrorView {
    pub status: int,
    pub message: Seq<char>,
}

impl View for RequestError {
    type V = RequestErrorView;

    open spec fn view(&self) -> RequestErrorView {
        RequestErrorView { status: self.status as int, message: self.message@ }
    }
}

/// What the engine reads off the parsed body of a response that has to stand
/// as an error.
#[derive(Debug)]
pub struct ErrorBody {
    /// The whole body, written out as JSON text.
    pub text: String,
    /// The body's `status` member, where the body is an object that has one
    /// and it is an integer.
    pub status: Option<i64>,
    /// The body's `message` member, where the body is an object that has one
    /// and it is a string.
    pub message: Option<String>,
}

/// An `ErrorBody` as plain values.
pub struct ErrorBodyView {
    pub text: Seq<char>,
    pub status: Option<int>,
    pub message: Option<Seq<char>>,
}

impl View for ErrorBody {
    type V = ErrorBodyView;

    open spec fn view(&self) -> ErrorBodyView {
        ErrorBodyView {
            text: self.text@,
            status: match self.status {
                Some(s) => Some(s as int),
                None => None,
            },
            message: match self.message {
                Some(m) => Some(m@),
                None => None,
            },
        }
    }
}

/// A body has the shape of an error when it holds a `status` that fits
/// sixteen signed bits and a `message`.
pub open spec fn has_shape(body: ErrorBodyView) -> bool {
    &&& body.status is Some
    &&& i16::MIN <= body.status->0 <= i16::MAX
    &&& body.message is Some
}

/// The error of a response that arrived with `status`: it keeps the status
/// of the response, and for its message takes the body's own `message` where
/// the body has the shape of an error, the whole body otherwise.
pub open spec fn rejection(status: int, body: ErrorBodyView) -> RequestErrorView {
    RequestErrorView {
        status,
        message: if has_shape(body) {
            body.message->0
        } else {
            body.text
        },
    }
}

impl ErrorBody {
    /// Tells whether the body has the shape of an error.
    pub fn is_shaped(&self) -> (r: bool)
        ensures
            r == has_shape(self@),
    {
        match self.status {
            Some(s) => -32768 <= s && s <= 32767 && self.message.is_some(),
            None => false,
        }
    }
}

/// The error of an exchange that brought no usable response.
pub open spec fn breakdown(description: Seq<char>) -> RequestErrorView {
    RequestErrorView { status: NO_RESPONSE as int, message: description }
}

impl Clone for RequestError {
    /// A second error with the same status and message.
    fn clone(&self) -> (copy: RequestError)
        ensures
            copy@ == self@,
    {
        RequestError { status: self.status, message: self.message.clone() }
    }
}

impl RequestError {
    /// An error with the given status and message.
    pub fn new(status: i16, message: String) -> (e: RequestError)
        ensures
            e@ == (RequestErrorView { status: status as int, message: message@ }),
    {
        RequestError { status, message }
    }

    /// The error of a failure below HTTP: a request that could not be built or
    /// sent, or a body that is no JSON. `description` says what went wrong.
    pub fn from_failure(description: String) -> (e: RequestError)
        ensures
            e@ == breakdown(description@),
    {
        RequestError { status: NO_RESPONSE, message: description }
    }

    /// The error of a response that arrived with `status` and `body`. The
    /// status has to fit the sixteen signed bits that an error has for it.
    pub fn from_body(status: u16, body: ErrorBody) -> (e: RequestError)
        requires
            status <= i16::MAX,
        ensures
            e@ == rejection(status as int, body@),
            e.status == status,
    {
        let shaped = body.is_shaped();
        let message = match body.message {
            Some(m) if shaped => m,
            _ => body.text,
        };
        RequestError { status: status as i16, message }
    }
}

} // verus!
