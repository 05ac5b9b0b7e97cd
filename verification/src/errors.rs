//! Error taxonomy of the connection manager.
//!
//! Each operation returns its errors synchronously; the receive loop has no
//! caller, so its failures become events instead (see `recv_loop`).

use vstd::prelude::*;

verus! {

/// Why a connect attempt failed.
#[derive(Debug)]
pub enum ConnectError {
    /// The peer is not among the paired devices the discovery collaborator
    /// reported.
    PeerNotFound,
    /// The transport-level connect failed with the given reason.
    TransportConnect(String),
}

impl ConnectError {
    /// The reason string the `ConnectionFailed` event carries.
    pub open spec fn reason_view(self) -> Seq<char> {
        match self {
            ConnectError::PeerNotFound => "peer not found among paired devices"@,
            ConnectError::TransportConnect(s) => s@,
        }
    }

    /// Render the reason for the `ConnectionFailed` event.
    pub fn reason_text(&self) -> (r: String)
        ensures
            r@ == self.reason_view(),
    {
        match self {
            ConnectError::PeerNotFound => "peer not found among paired devices".to_owned(),
            ConnectError::TransportConnect(s) => s.clone(),
        }
    }
}

/// Why a send failed.
#[derive(Debug)]
pub enum SendError {
    /// No active connection record exists for the peer.
    NotConnected,
    /// The transport write or flush failed with the given reason.
    TransportWrite(String),
}

/// Why a disconnect failed.
#[derive(Debug)]
pub enum DisconnectError {
    /// No active connection record exists for the peer.  Benign when the
    /// receive loop already cleaned the record up.
    NotConnected,
    /// Closing the transport failed; the record is gone regardless.
    TransportClose(String),
}

/// Turn the outcome of the transport write-and-flush into the send result.
/// `None` stands for a completed write of the whole message.
pub fn send_finish(outcome: Option<String>) -> (r: Result<(), SendError>)
    ensures
        outcome is None <==> r is Ok,
        outcome matches Some(reason) ==> r matches Err(SendError::TransportWrite(why))
            && why == reason,
{
    match outcome {
        None => Ok(()),
        Some(reason) => Err(SendError::TransportWrite(reason)),
    }
}

/// Turn the outcome of the transport close into the disconnect result.
/// The registry entry was already removed; a close failure changes only
/// what the caller is told, never the registry.
pub fn disconnect_finish(outcome: Option<String>) -> (r: Result<(), DisconnectError>)
    ensures
        outcome is None <==> r is Ok,
        outcome matches Some(reason) ==> r matches Err(DisconnectError::TransportClose(why))
            && why == reason,
{
    match outcome {
        None => Ok(()),
        Some(reason) => Err(DisconnectError::TransportClose(reason)),
    }
}

} // verus!
