//! What goes to the switch and what comes back, as plain values. Sending a
//! [`Request`] and producing the [`Reply`] is the caller's part.

use crate::endpoint::url_text;
use crate::json::{json_of, json_parse, parse, Json};
use serde_json::Value;
use url::ParseError;
use url::Url;
use vstd::prelude::*;
use vstd::std_specs::convert::FromSpecImpl;

verus! {

/// HTTP method of a request.
#[derive(Clone, Copy, Debug, PartialEq, Eq, Structural)]
pub enum Method {
    Get,
    Post,
    Put,
}

/// An HTTP request to the switch. A body, where there is one, is sent as
/// JSON.
#[derive(Debug)]
pub struct Request {
    pub method: Method,
    pub url: Url,
    pub body: Option<Value>,
}

/// A [`Request`] with its URL as text and its body as a document.
pub struct RequestView {
    pub method: Method,
    pub url: Seq<char>,
    pub body: Option<Json>,
}

impl View for Request {
    type V = RequestView;

    open spec fn view(&self) -> RequestView {
        RequestView {
            method: self.method,
            url: url_text(self.url),
            body: match self.body {
                Some(value) => Some(json_of(value)),
                None => None,
            },
        }
    }
}

/// What the transport hands back for a request.
#[derive(Debug)]
pub enum Reply {
    /// No response was obtained; the text says why.
    Failed(String),
    /// The switch answered with this status code and body.
    Response { status: u16, body: String },
    /// The switch answered with this status code, but the body could not be
    /// read; the text says why.
    Unread { status: u16, reason: String },
}

/// A [`Reply`] with its strings as sequences of characters.
pub enum ReplyView {
    Failed(Seq<char>),
    Response { status: u16, body: Seq<char> },
    Unread { status: u16, reason: Seq<char> },
}

impl View for Reply {
    type V = ReplyView;

    open spec fn view(&self) -> ReplyView {
        match self {
            Reply::Failed(reason) => ReplyView::Failed(reason@),
            Reply::Response { status, body } => ReplyView::Response { status: *status, body: body@ },
            Reply::Unread { status, reason } => ReplyView::Unread {
                status: *status,
                reason: reason@,
            },
        }
    }
}

/// Why an exchange with the switch yielded no usable result.
#[derive(Debug)]
pub enum RequestError {
    /// No response was obtained, or none that could be read to its end; the
    /// text is the transport's reason.
    Transport(String),
    /// The switch answered with a status code outside 200 to 299.
    Status(u16),
    /// The switch answered with success, but the body is not the JSON that
    /// the request calls for.
    Decode,
}

/// A [`RequestError`] with its string as a sequence of characters.
pub enum RequestErrorView {
    Transport(Seq<char>),
    Status(u16),
    Decode,
}

impl View for RequestError {
    type V = RequestErrorView;

    open spec fn view(&self) -> RequestErrorView {
        match self {
            RequestError::Transport(reason) => RequestErrorView::Transport(reason@),
            RequestError::Status(status) => RequestErrorView::Status(*status),
            RequestError::Decode => RequestErrorView::Decode,
        }
    }
}

/// Whether a status code reports success: 200 to 299.
pub open spec fn is_success(status: u16) -> bool {
    200 <= status < 300
}

impl RequestErrorView {
    /// The status code that the switch answered with, where it answered.
    pub open spec fn status(self) -> Option<u16> {
        match self {
            RequestErrorView::Status(status) => Some(status),
            _ => None,
        }
    }
}

impl RequestError {
    /// The status code that the switch answered with, where it answered.
    pub fn status(&self) -> (status: Option<u16>)
        ensures
            status == self@.status(),
    {
        match self {
            RequestError::Status(status) => Some(*status),
            _ => None,
        }
    }
}

impl ReplyView {
    /// The JSON document of a reply: a response with a success status whose
    /// body parses. Every other reply is an error: first for want of a
    /// response, then for the status, and only then for the body.
    pub open spec fn document(self) -> Result<Json, RequestErrorView> {
        match self {
            ReplyView::Failed(reason) => Err(RequestErrorView::Transport(reason)),
            ReplyView::Response { status, body } => if !is_success(status) {
                Err(RequestErrorView::Status(status))
            } else {
                match json_parse(body) {
                    Some(document) => Ok(document),
                    None => Err(RequestErrorView::Decode),
                }
            },
            ReplyView::Unread { status, reason } => if !is_success(status) {
                Err(RequestErrorView::Status(status))
            } else {
                Err(RequestErrorView::Transport(reason))
            },
        }
    }
}

impl Reply {
    /// The JSON document of the reply, or the reason why it has none.
    pub fn document(&self) -> (document: Result<Value, RequestError>)
        ensures
            match document {
                Ok(value) => self@.document() == Ok::<Json, RequestErrorView>(json_of(value)),
                Err(error) => self@.document() == Err::<Json, RequestErrorView>(error@),
            },
    {
        match self {
            Reply::Failed(reason) => Err(RequestError::Transport(reason.clone())),
            Reply::Response { status, body } => {
                if *status < 200 || *status >= 300 {
                    Err(RequestError::Status(*status))
                } else {
                    match parse(body.as_str()) {
                        Some(value) => Ok(value),
                        None => Err(RequestError::Decode),
                    }
                }
            },
            Reply::Unread { status, reason } => {
                if *status < 200 || *status >= 300 {
                    Err(RequestError::Status(*status))
                } else {
                    Err(RequestError::Transport(reason.clone()))
                }
            },
        }
    }
}

/// Failure of an operation on the switch's interface.
#[derive(Debug)]
pub enum Error {
    /// A URL could not be parsed or resolved.
    Parse(ParseError),
    /// The exchange with the switch failed.
    Request(RequestError),
}

/// An [`Error`] with the request error as its view.
pub enum ErrorView {
    Parse(ParseError),
    Request(RequestErrorView),
}

impl View for Error {
    type V = ErrorView;

    open spec fn view(&self) -> ErrorView {
        match self {
            Error::Parse(error) => ErrorView::Parse(*error),
            Error::Request(error) => ErrorView::Request(error@),
        }
    }
}

impl From<ParseError> for Error {
    fn from(value: ParseError) -> (error: Error) {
        Error::Parse(value)
    }
}

impl FromSpecImpl<ParseError> for Error {
    open spec fn obeys_from_spec() -> bool {
        true
    }

    open spec fn from_spec(value: ParseError) -> Error {
        Error::Parse(value)
    }
}

impl From<RequestError> for Error {
    fn from(value: RequestError) -> (error: Error) {
        Error::Request(value)
    }
}

impl FromSpecImpl<RequestError> for Error {
    open spec fn obeys_from_spec() -> bool {
        true
    }

    open spec fn from_spec(value: RequestError) -> Error {
        Error::Request(value)
    }
}

} // verus!
