//! Lifecycle and data events published to the notification sink.
//!
//! The sink itself is an external collaborator; the library models it as a
//! growing list of `Event` values.  Every operation that changes (or tries
//! to change) connection state appends the events it owes, and its contract
//! says exactly which ones, so event emission is part of what is verified.

use vstd::prelude::*;

verus! {

/// An event as the notification sink receives it: either a lifecycle
/// change for one peer, or a chunk of inbound data from one peer.
pub enum Event {
    /// A connect was requested for a peer that already has a record.
    AlreadyConnected { peer: String },
    /// A transport-level connect succeeded and the record is registered.
    Connected { peer: String },
    /// A connect attempt failed; no record remains for the peer.
    ConnectionFailed { peer: String, reason: String },
    /// The receive loop hit a fatal read error and is shutting down.
    Error { peer: String, reason: String },
    /// The peer's record is gone and its receive loop will not run again.
    Disconnected { peer: String },
    /// Bytes read from the peer's transport, one event per non-empty read.
    Data { peer: String, bytes: Vec<u8> },
}

/// The mathematical value of an `Event`: peers as character sequences,
/// payloads as byte sequences.  Contracts speak of this form.
pub enum EventV {
    AlreadyConnected { peer: Seq<char> },
    Connected { peer: Seq<char> },
    ConnectionFailed { peer: Seq<char>, reason: Seq<char> },
    Error { peer: Seq<char>, reason: Seq<char> },
    Disconnected { peer: Seq<char> },
    Data { peer: Seq<char>, bytes: Seq<u8> },
}

impl View for Event {
    type V = EventV;

    open spec fn view(&self) -> EventV {
        match self {
            Event::AlreadyConnected { peer } => EventV::AlreadyConnected { peer: peer@ },
            Event::Connected { peer } => EventV::Connected { peer: peer@ },
            Event::ConnectionFailed { peer, reason } => EventV::ConnectionFailed {
                peer: peer@,
                reason: reason@,
            },
            Event::Error { peer, reason } => EventV::Error { peer: peer@, reason: reason@ },
            Event::Disconnected { peer } => EventV::Disconnected { peer: peer@ },
            Event::Data { peer, bytes } => EventV::Data { peer: peer@, bytes: bytes@ },
        }
    }
}

/// The sink grew by exactly the events `added`, in that order, and nothing
/// already in it moved or changed.
pub open spec fn sink_grew(before: Seq<Event>, after: Seq<Event>, added: Seq<EventV>) -> bool {
    &&& after.len() == before.len() + added.len()
    &&& forall|i: int| 0 <= i < before.len() ==> after[i] == before[i]
    &&& forall|j: int| 0 <= j < added.len() ==> (#[trigger] after[before.len() + j])@ == added[j]
}

/// The sink did not change at all.
pub open spec fn sink_unchanged(before: Seq<Event>, after: Seq<Event>) -> bool {
    after == before
}

} // verus!
