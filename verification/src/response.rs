//! Response envelopes and their status field.
use vstd::prelude::*;

use crate::error::ChannelError;
use crate::error::ErrorKind;
use crate::error::ErrorSource;
use crate::payload::Payload;
use crate::request::RequestID;

verus! {

/// The wire kind of a response envelope.
#[derive(Clone, Copy, Debug, Hash, PartialEq, Eq, Structural, PartialOrd, Ord)]
pub enum ResponseType {
    Authenticate,
    Connect,
    Disconnect,
    SendMessage,
    SendWhisper,
    BanUser,
    UnbanUser,
    SendEmote,
    KickUser,
    SetModerator,
}

/// The two-field status optionally carried by a response envelope.
///
/// The pair `(0, 0)` means success; every other pair names a failure.
#[derive(Clone, Copy, Debug, Hash, PartialEq, Eq, Structural, PartialOrd, Ord)]
pub struct ResponseStatus {
    area: u8,
    code: u8,
}

impl ResponseStatus {
    /// The area field of this status.
    pub closed spec fn spec_area(&self) -> u8 {
        self.area
    }

    /// The code field of this status.
    pub closed spec fn spec_code(&self) -> u8 {
        self.code
    }

    /// Whether this status means success.
    pub open spec fn is_success(&self) -> bool {
        self.spec_area() == 0 && self.spec_code() == 0
    }

    /// The human-readable reason for this status; unknown pairs map to
    /// a generic text.
    pub open spec fn spec_text(&self) -> Seq<char> {
        if self.spec_area() == 0 && self.spec_code() == 0 {
            "Ok"@
        } else if self.spec_area() == 8 && self.spec_code() == 1 {
            "Not Connected to chat"@
        } else if self.spec_area() == 8 && self.spec_code() == 2 {
            "Bad request"@
        } else if self.spec_area() == 6 && self.spec_code() == 5 {
            "Reqeust timed out"@
        } else if self.spec_area() == 6 && self.spec_code() == 8 {
            "Hit rate limit"@
        } else {
            "Unknown"@
        }
    }

    /// Pair an area and a code as a status.
    pub fn new(area: u8, code: u8) -> (r: ResponseStatus)
        ensures
            r.spec_area() == area,
            r.spec_code() == code,
    {
        ResponseStatus { area, code }
    }

    /// The area field of this status.
    pub fn area(&self) -> (r: u8)
        ensures
            r == self.spec_area(),
    {
        self.area
    }

    /// The code field of this status.
    pub fn code(&self) -> (r: u8)
        ensures
            r == self.spec_code(),
    {
        self.code
    }

    /// The human-readable reason for this status.
    pub fn as_str(&self) -> (r: &'static str)
        ensures
            r@ == self.spec_text(),
    {
        if self.area == 0 && self.code == 0 {
            "Ok"
        } else if self.area == 8 && self.code == 1 {
            "Not Connected to chat"
        } else if self.area == 8 && self.code == 2 {
            "Bad request"
        } else if self.area == 6 && self.code == 5 {
            "Reqeust timed out"
        } else if self.area == 6 && self.code == 8 {
            "Hit rate limit"
        } else {
            "Unknown"
        }
    }
}

/// Whether an optional status field means success: an absent status does,
/// and so does the pair `(0, 0)`.
pub open spec fn status_ok(status: Option<ResponseStatus>) -> bool {
    match status {
        Option::None => true,
        Option::Some(st) => st.is_success(),
    }
}

/// A response envelope: its kind, the correlation id of the request it
/// answers, its payload, and an optional status.
#[derive(Clone, Debug, PartialEq, Eq)]
pub struct ResponsePacket {
    command: ResponseType,
    request: RequestID,
    payload: Payload,
    status: Option<ResponseStatus>,
}

impl ResponsePacket {
    /// The kind of this response.
    pub closed spec fn spec_command(&self) -> ResponseType {
        self.command
    }

    /// The correlation id of this response.
    pub closed spec fn spec_request(&self) -> RequestID {
        self.request
    }

    /// The payload of this response.
    pub closed spec fn spec_payload(&self) -> Payload {
        self.payload
    }

    /// The status of this response.
    pub closed spec fn spec_status(&self) -> Option<ResponseStatus> {
        self.status
    }

    /// Assemble a response envelope from its decoded fields.
    pub fn new(
        command: ResponseType,
        request: RequestID,
        payload: Payload,
        status: Option<ResponseStatus>,
    ) -> (r: ResponsePacket)
        ensures
            r.spec_command() == command,
            r.spec_request() == request,
            r.spec_payload() == payload,
            r.spec_status() == status,
    {
        ResponsePacket { command, request, payload, status }
    }

    /// The kind of this response.
    pub fn command(&self) -> (r: ResponseType)
        ensures
            r == self.spec_command(),
    {
        self.command
    }

    /// The correlation id of this response.
    pub fn request(&self) -> (r: RequestID)
        ensures
            r == self.spec_request(),
    {
        self.request
    }

    /// The payload of this response.
    pub fn payload(&self) -> (r: &Payload)
        ensures
            *r == self.spec_payload(),
    {
        &self.payload
    }

    /// The status of this response.
    pub fn status(&self) -> (r: Option<ResponseStatus>)
        ensures
            r == self.spec_status(),
    {
        self.status
    }

    /// Accept a correlated response on behalf of the caller that sent the
    /// matching request: a response whose status means success is returned
    /// unchanged, and any other status becomes a status error.
    ///
    /// A response whose kind or correlation id does not match what was sent
    /// breaks the transport contract; callers must establish both before
    /// accepting.
    pub fn accept(self, expected: ResponseType, request: RequestID) -> (r: Result<
        ResponsePacket,
        ChannelError,
    >)
        requires
            self.spec_command() == expected,
            self.spec_request() == request,
        ensures
            status_ok(self.spec_status()) ==> r == Result::<ResponsePacket, ChannelError>::Ok(
                self,
            ),
            !status_ok(self.spec_status()) ==> (match self.spec_status() {
                Option::Some(st) => r == Result::<ResponsePacket, ChannelError>::Err(
                    ChannelError { kind: ErrorKind::Status, source: ErrorSource::Status(st) },
                ),
                Option::None => false,
            }),
    {
        match self.status {
            Option::Some(st) => {
                if st.area() != 0 || st.code() != 0 {
                    Result::Err(ChannelError::status(st))
                } else {
                    Result::Ok(self)
                }
            },
            Option::None => Result::Ok(self),
        }
    }
}

} // verus!
