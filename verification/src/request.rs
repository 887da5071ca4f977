//! Request envelopes and correlation identifiers.
use vstd::prelude::*;

use crate::packet::IntoPayload;
use crate::packet::Packet;
use crate::payload::Payload;

verus! {

/// The wire kind of a request envelope.
#[derive(Clone, Copy, Debug, Hash, PartialEq, Eq, Structural, PartialOrd, Ord)]
pub enum RequestType {
    Authenticate,
    Connect,
    Disconnect,
    SendMessage,
    SendWhisper,
    BanUser,
    UnbanUser,
    SendEmote,
    KickUser,
    SetModerator,
}

/// A correlation identifier, used to match a response to the request that
/// caused it. Fresh identifiers are process-unique and never zero.
#[derive(Clone, Copy, Debug, Hash, PartialEq, Eq, Structural, PartialOrd, Ord)]
pub struct RequestID {
    value: u64,
}

/// The allocator of fresh correlation identifiers: a counter that starts at
/// one and hands out strictly increasing values. Callers that allocate
/// concurrently must serialize access to one source, which keeps every
/// identifier it ever produced distinct from every other.
pub struct RequestIdSource {
    next: u64,
    issued: Ghost<Set<u64>>,
}

impl RequestIdSource {
    /// The value the next allocation will return.
    pub closed spec fn spec_next(&self) -> u64 {
        self.next
    }

    /// Every identifier this source has handed out so far.
    pub closed spec fn spec_issued(&self) -> Set<u64> {
        self.issued@
    }

    /// The counter never returns to zero, so no allocated identifier is
    /// zero; and every identifier already issued lies below the counter, so
    /// no allocation can repeat one.
    pub open spec fn wf(&self) -> bool {
        &&& self.spec_next() >= 1
        &&& forall|v: u64| self.spec_issued().contains(v) ==> v < self.spec_next()
    }

    /// A fresh source, counting from one.
    pub fn new() -> (r: RequestIdSource)
        ensures
            r.spec_next() == 1,
            r.spec_issued() == Set::<u64>::empty(),
            r.wf(),
    {
        RequestIdSource { next: 1, issued: Ghost(Set::empty()) }
    }

    /// The value the next allocation will return, without allocating.
    pub fn peek(&self) -> (r: u64)
        ensures
            r == self.spec_next(),
    {
        self.next
    }
}

impl RequestID {
    /// The numeric value of this identifier.
    pub closed spec fn spec_value(&self) -> u64 {
        self.value
    }

    /// Wrap a raw wire value as a correlation identifier.
    pub fn new(value: u64) -> (r: RequestID)
        ensures
            r.spec_value() == value,
    {
        RequestID { value }
    }

    /// The raw numeric value, as it appears on the wire.
    pub fn get(&self) -> (r: u64)
        ensures
            r == self.spec_value(),
    {
        self.value
    }

    /// Allocate the next fresh identifier from `source`: one the source has
    /// never handed out before, and never zero.
    pub fn next(source: &mut RequestIdSource) -> (r: RequestID)
        requires
            old(source).wf(),
            old(source).spec_next() < u64::MAX,
        ensures
            r.spec_value() == old(source).spec_next(),
            r.spec_value() >= 1,
            !old(source).spec_issued().contains(r.spec_value()),
            final(source).spec_issued() == old(source).spec_issued().insert(r.spec_value()),
            final(source).spec_next() == old(source).spec_next() + 1,
            final(source).wf(),
    {
        let value = source.next;
        source.next = source.next + 1;
        proof {
            source.issued@ = source.issued@.insert(value);
        }
        RequestID { value }
    }
}

/// The identifier values that `n` consecutive allocations yield from a source
/// whose counter stands at `start`.
pub open spec fn allocated_ids(start: int, n: nat) -> Seq<int> {
    Seq::new(n, |i: int| start + i)
}

/// Law: identifiers allocated from one source are pairwise distinct, however
/// many callers interleave their allocations; every allocation returns the
/// counter's value at that moment, and the counter only grows.
pub proof fn lemma_allocated_ids_distinct(start: int, n: nat)
    ensures
        forall|i: int, j: int|
            0 <= i < j < n ==> allocated_ids(start, n)[i] != allocated_ids(start, n)[j],
{
    assert forall|i: int, j: int| 0 <= i < j < n implies allocated_ids(start, n)[i]
        != allocated_ids(start, n)[j] by {
        assert(allocated_ids(start, n)[i] == start + i);
        assert(allocated_ids(start, n)[j] == start + j);
    }
}

/// A request envelope: its kind, a fresh correlation id, and the payload the
/// packet serializes to.
#[derive(Clone, Debug, PartialEq, Eq)]
pub struct RequestPacket {
    command: RequestType,
    request: RequestID,
    payload: Payload,
}

impl RequestPacket {
    /// The kind of this request.
    pub closed spec fn spec_command(&self) -> RequestType {
        self.command
    }

    /// The correlation id of this request.
    pub closed spec fn spec_request(&self) -> RequestID {
        self.request
    }

    /// The payload of this request.
    pub closed spec fn spec_payload(&self) -> Payload {
        self.payload
    }

    /// Build a request envelope for `payload`, stamped with a fresh
    /// correlation id from `source`.
    pub fn new<P: Packet + IntoPayload>(payload: P, source: &mut RequestIdSource) -> (r:
        RequestPacket)
        requires
            old(source).wf(),
            old(source).spec_next() < u64::MAX,
        ensures
            r.spec_command() == P::spec_req_type(),
            r.spec_request().spec_value() == old(source).spec_next(),
            !old(source).spec_issued().contains(r.spec_request().spec_value()),
            final(source).spec_issued() == old(source).spec_issued().insert(
                r.spec_request().spec_value(),
            ),
            r.spec_payload().model() == payload.payload_model(),
            r.spec_payload().wf(),
            final(source).spec_next() == old(source).spec_next() + 1,
            final(source).wf(),
    {
        RequestPacket {
            command: P::req_type(),
            request: RequestID::next(source),
            payload: payload.into_payload(),
        }
    }

    /// The kind of this request.
    pub fn command(&self) -> (r: RequestType)
        ensures
            r == self.spec_command(),
    {
        self.command
    }

    /// The correlation id of this request.
    pub fn request(&self) -> (r: RequestID)
        ensures
            r == self.spec_request(),
    {
        self.request
    }

    /// The payload of this request.
    pub fn payload(&self) -> (r: &Payload)
        ensures
            *r == self.spec_payload(),
    {
        &self.payload
    }
}

} // verus!
