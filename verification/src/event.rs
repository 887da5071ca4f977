//! Event envelopes: inbound traffic that answers no outstanding request.
use vstd::prelude::*;

use crate::payload::Payload;
use crate::request::RequestID;

verus! {

/// The wire kind of an event envelope.
#[derive(Clone, Copy, Debug, Hash, PartialEq, Eq, Structural, PartialOrd, Ord)]
pub enum EventType {
    Connect,
    Disconnect,
    Message,
    UserUpdate,
    UserLeave,
}

/// An event envelope: its kind, the correlation id it carries on the wire,
/// and its payload.
#[derive(Clone, Debug, PartialEq, Eq)]
pub struct EventPacket {
    command: EventType,
    request: RequestID,
    payload: Payload,
}

impl EventPacket {
    /// The kind of this event.
    pub closed spec fn spec_command(&self) -> EventType {
        self.command
    }

    /// The correlation id of this event.
    pub closed spec fn spec_request(&self) -> RequestID {
        self.request
    }

    /// The payload of this event.
    pub closed spec fn spec_payload(&self) -> Payload {
        self.payload
    }

    /// Assemble an event envelope from its decoded fields.
    pub fn new(command: EventType, request: RequestID, payload: Payload) -> (r: EventPacket)
        ensures
            r.spec_command() == command,
            r.spec_request() == request,
            r.spec_payload() == payload,
    {
        EventPacket { command, request, payload }
    }

    /// The kind of this event.
    pub fn command(&self) -> (r: EventType)
        ensures
            r == self.spec_command(),
    {
        self.command
    }

    /// The correlation id of this event.
    pub fn request(&self) -> (r: RequestID)
        ensures
            r == self.spec_request(),
    {
        self.request
    }

    /// The payload of this event.
    pub fn payload(&self) -> (r: &Payload)
        ensures
            *r == self.spec_payload(),
    {
        &self.payload
    }
}

} // verus!
