//! The error type shared by the channel handle and the driver task.
use vstd::prelude::*;

use crate::response::ResponseStatus;

verus! {

/// The kind of a channel error.
#[derive(Clone, Copy, Debug, Hash, PartialEq, Eq, Structural)]
pub enum ErrorKind {
    /// A transport-level read, write or close failure.
    Socket,
    /// A request could not be serialized for the wire.
    Encode,
    /// An inbound message could not be parsed.
    Decode,
    /// A correlated response carried a non-success status.
    Status,
    /// An internal receive channel was closed unexpectedly.
    ChannRecv,
    /// An internal send channel was closed unexpectedly.
    ChannSend,
    /// The driver task terminated abnormally.
    JoinError,
}

impl ErrorKind {
    /// The short description of this kind.
    pub open spec fn spec_label(&self) -> Seq<char> {
        match self {
            ErrorKind::Socket => "socket error"@,
            ErrorKind::Encode => "encode error"@,
            ErrorKind::Decode => "decode error"@,
            ErrorKind::Status => "status error"@,
            ErrorKind::ChannRecv => "recv error"@,
            ErrorKind::ChannSend => "send error"@,
            ErrorKind::JoinError => "join error"@,
        }
    }

    /// The short description of this kind.
    pub fn as_str(&self) -> (r: &'static str)
        ensures
            r@ == self.spec_label(),
    {
        match self {
            ErrorKind::Socket => "socket error",
            ErrorKind::Encode => "encode error",
            ErrorKind::Decode => "decode error",
            ErrorKind::Status => "status error",
            ErrorKind::ChannRecv => "recv error",
            ErrorKind::ChannSend => "send error",
            ErrorKind::JoinError => "join error",
        }
    }
}

/// What an error carries: the rendering of an underlying failure, a response
/// status, or a plain message.
#[derive(Clone, Debug, PartialEq, Eq)]
pub enum ErrorSource {
    /// The rendering of an underlying error value.
    Wrapped(String),
    /// The status carried by a correlated response.
    Status(ResponseStatus),
    /// A plain message.
    Text(String),
}

/// The abstract value of an error source.
pub enum SourceModel {
    Wrapped(Seq<char>),
    Status(ResponseStatus),
    Text(Seq<char>),
}

impl ErrorSource {
    /// The abstract value of this source.
    pub open spec fn model(&self) -> SourceModel {
        match self {
            ErrorSource::Wrapped(s) => SourceModel::Wrapped(s@),
            ErrorSource::Status(st) => SourceModel::Status(*st),
            ErrorSource::Text(s) => SourceModel::Text(s@),
        }
    }
}

/// An error raised by the channel handle or the driver task.
#[derive(Clone, Debug, PartialEq, Eq)]
pub struct ChannelError {
    pub kind: ErrorKind,
    pub source: ErrorSource,
}

/// The abstract value of a channel error.
pub struct ErrorModel {
    pub kind: ErrorKind,
    pub source: SourceModel,
}

impl ChannelError {
    /// The abstract value of this error.
    pub open spec fn model(&self) -> ErrorModel {
        ErrorModel { kind: self.kind, source: self.source.model() }
    }

    /// An error wrapping the rendering of an underlying failure.
    pub fn new(kind: ErrorKind, source: String) -> (r: ChannelError)
        ensures
            r == (ChannelError { kind, source: ErrorSource::Wrapped(source) }),
    {
        ChannelError { kind, source: ErrorSource::Wrapped(source) }
    }

    /// An error carrying a plain message.
    pub fn msg(kind: ErrorKind, message: String) -> (r: ChannelError)
        ensures
            r == (ChannelError { kind, source: ErrorSource::Text(message) }),
    {
        ChannelError { kind, source: ErrorSource::Text(message) }
    }

    /// The error for a response that carried a non-success status.
    pub fn status(status: ResponseStatus) -> (r: ChannelError)
        ensures
            r == (ChannelError { kind: ErrorKind::Status, source: ErrorSource::Status(status) }),
    {
        ChannelError { kind: ErrorKind::Status, source: ErrorSource::Status(status) }
    }

    /// The text carried by this error: the wrapped rendering, the plain
    /// message, or the description of the response status.
    pub fn message(&self) -> (r: String)
        ensures
            (match self.source {
                ErrorSource::Wrapped(s) => r@ == s@,
                ErrorSource::Status(st) => r@ == st.spec_text(),
                ErrorSource::Text(s) => r@ == s@,
            }),
    {
        match &self.source {
            ErrorSource::Wrapped(s) => s.clone(),
            ErrorSource::Status(st) => st.as_str().to_owned(),
            ErrorSource::Text(s) => s.clone(),
        }
    }
}

} // verus!
