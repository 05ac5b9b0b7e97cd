//! The connection manager: connect, send and disconnect decisions over the
//! registry, with the events each decision owes the notification sink.
//!
//! The manager never blocks.  Whatever must block — resolving a peer,
//! connecting, writing, closing — is done by the surrounding runtime
//! between two manager calls, and its outcome is handed back in as a plain
//! value.  A connect is therefore two steps: `begin_connect` reserves the
//! peer (presence check and reservation are one critical section), the
//! runtime connects the transport, and `finish_connect` either activates
//! the reservation or rolls it back.

use vstd::prelude::*;
use vstd::map::*;
use crate::errors::{ConnectError, SendError, DisconnectError};
use crate::events::{Event, EventV, sink_grew, sink_unchanged};
use crate::registry::{Phase, Registry};

verus! {

/// The registry holds an `Active` record for `p`.
pub open spec fn is_active(reg: Map<Seq<char>, Phase>, p: Seq<char>) -> bool {
    reg.dom().contains(p) && reg[p] is Active
}

/// The transport handle an active phase carries.
pub open spec fn phase_handle(ph: Phase) -> u64 {
    match ph {
        Phase::Active { handle } => handle,
        Phase::Reserved => 0,
    }
}

/// Whether `begin_connect` answers "already connected".
pub open spec fn begin_already(reg: Map<Seq<char>, Phase>, p: Seq<char>) -> bool {
    reg.dom().contains(p)
}

/// The registry after `begin_connect`.
pub open spec fn reg_after_begin(reg: Map<Seq<char>, Phase>, p: Seq<char>) -> Map<
    Seq<char>,
    Phase,
> {
    if reg.dom().contains(p) {
        reg
    } else {
        reg.insert(p, Phase::Reserved)
    }
}

/// The registry after `finish_connect` on a successful transport connect.
pub open spec fn reg_after_finish_ok(reg: Map<Seq<char>, Phase>, p: Seq<char>, h: u64) -> Map<
    Seq<char>,
    Phase,
> {
    reg.insert(p, Phase::Active { handle: h })
}

/// The registry after `finish_connect` on a failed attempt: the
/// reservation is rolled back, a failed attempt never leaves a record.
pub open spec fn reg_after_finish_err(reg: Map<Seq<char>, Phase>, p: Seq<char>) -> Map<
    Seq<char>,
    Phase,
> {
    reg.remove(p)
}

/// What `send` does for `p`: the handle to write to, or nothing when the
/// peer has no active connection.
pub open spec fn send_verdict(reg: Map<Seq<char>, Phase>, p: Seq<char>) -> Option<u64> {
    if is_active(reg, p) {
        Some(phase_handle(reg[p]))
    } else {
        None
    }
}

/// Whether `disconnect` finds a record to remove.
pub open spec fn disconnect_hit(reg: Map<Seq<char>, Phase>, p: Seq<char>) -> bool {
    is_active(reg, p)
}

/// The registry after `disconnect`: removal is unconditional once the
/// record is found, whatever the later transport close reports.
pub open spec fn reg_after_disconnect(reg: Map<Seq<char>, Phase>, p: Seq<char>) -> Map<
    Seq<char>,
    Phase,
> {
    if is_active(reg, p) {
        reg.remove(p)
    } else {
        reg
    }
}

/// The registry after a receive loop's own cleanup: the loop removes
/// exactly its own record (same peer, same handle) and touches nothing
/// else, so a record already removed by `disconnect` — or a successor
/// connection's fresh record — is left alone.
pub open spec fn reg_after_cleanup(reg: Map<Seq<char>, Phase>, p: Seq<char>, h: u64) -> Map<
    Seq<char>,
    Phase,
> {
    if is_active(reg, p) && phase_handle(reg[p]) == h {
        reg.remove(p)
    } else {
        reg
    }
}

/// One full write the transport owes: the whole message for one send, as
/// one contiguous unit.  The runtime performs it under the per-connection
/// lock, so concurrent sends never split each other's bytes.
pub struct WriteCmd {
    pub handle: u64,
    pub bytes: Vec<u8>,
}

/// The connection manager.  Its mathematical state is the registry map.
pub struct Manager {
    pub registry: Registry,
}

impl View for Manager {
    type V = Map<Seq<char>, Phase>;

    open spec fn view(&self) -> Map<Seq<char>, Phase> {
        self.registry@
    }
}

impl Manager {
    /// Well-formedness of the underlying registry.
    pub open spec fn wf(self) -> bool {
        self.registry.wf()
    }

    /// A manager with no connections.
    pub fn new() -> (r: Manager)
        ensures
            r.wf(),
            r@ == Map::<Seq<char>, Phase>::empty(),
    {
        Manager { registry: Registry::new() }
    }

    /// First half of a connect: check presence and reserve in one step.
    ///
    /// If the peer already has a record, emit `AlreadyConnected` and tell
    /// the caller not to proceed (the operation still counts as a
    /// success).  Otherwise insert a reservation; the caller must then
    /// connect the transport and report back through `finish_connect`.
    pub fn begin_connect(&mut self, peer: &String, sink: &mut Vec<Event>) -> (proceed: bool)
        requires
            old(self).wf(),
        ensures
            final(self).wf(),
            proceed == !begin_already(old(self)@, peer@),
            final(self)@ == reg_after_begin(old(self)@, peer@),
            begin_already(old(self)@, peer@) ==> sink_grew(
                old(sink)@,
                final(sink)@,
                seq![EventV::AlreadyConnected { peer: peer@ }],
            ),
            !begin_already(old(self)@, peer@) ==> sink_unchanged(old(sink)@, final(sink)@),
    {
        match self.registry.phase_of(peer) {
            Some(_) => {
                sink.push(Event::AlreadyConnected { peer: peer.clone() });
                false
            },
            None => {
                self.registry.insert_new(peer.clone(), Phase::Reserved);
                true
            },
        }
    }

    /// Second half of a connect: the transport outcome arrives.
    ///
    /// On success the reservation becomes the active record for the given
    /// handle, `Connected` is emitted, and the caller must schedule the
    /// receive loop for that handle.  On failure the reservation is rolled
    /// back and `ConnectionFailed` carries the reason; the registry keeps
    /// no trace of a failed attempt.
    pub fn finish_connect(
        &mut self,
        peer: &String,
        outcome: Result<u64, ConnectError>,
        sink: &mut Vec<Event>,
    ) -> (r: Result<(), ConnectError>)
        requires
            old(self).wf(),
            old(self)@.dom().contains(peer@),
            old(self)@[peer@] is Reserved,
        ensures
            final(self).wf(),
            outcome matches Ok(h) ==> {
                &&& final(self)@ == reg_after_finish_ok(old(self)@, peer@, h)
                &&& r is Ok
                &&& sink_grew(old(sink)@, final(sink)@, seq![EventV::Connected { peer: peer@ }])
            },
            outcome matches Err(e) ==> {
                &&& final(self)@ == reg_after_finish_err(old(self)@, peer@)
                &&& r matches Err(e2) && e2 == e
                &&& sink_grew(
                    old(sink)@,
                    final(sink)@,
                    seq![EventV::ConnectionFailed { peer: peer@, reason: e.reason_view() }],
                )
            },
    {
        let ghost reg0 = self@;
        match outcome {
            Ok(handle) => {
                let _ = self.registry.remove_peer(peer);
                self.registry.insert_new(peer.clone(), Phase::Active { handle });
                proof {
                    assert_maps_equal!(
                        reg0.remove(peer@).insert(peer@, Phase::Active { handle }),
                        reg_after_finish_ok(reg0, peer@, handle),
                        k => {}
                    );
                }
                sink.push(Event::Connected { peer: peer.clone() });
                Ok(())
            },
            Err(e) => {
                let _ = self.registry.remove_peer(peer);
                let reason = e.reason_text();
                sink.push(Event::ConnectionFailed { peer: peer.clone(), reason });
                Err(e)
            },
        }
    }

    /// Decide a send: look the peer up and, if it has an active record,
    /// return the one contiguous write the transport owes.  The registry
    /// is never changed by a send, and a peer without an active record is
    /// refused with `NotConnected`.
    pub fn send_plan(&self, peer: &String, data: Vec<u8>) -> (r: Result<WriteCmd, SendError>)
        requires
            self.wf(),
        ensures
            send_verdict(self@, peer@) matches Some(h) ==> (r matches Ok(cmd) && cmd.handle == h
                && cmd.bytes@ == data@),
            send_verdict(self@, peer@) is None ==> (r matches Err(e) && e is NotConnected),
    {
        match self.registry.phase_of(peer) {
            Some(Phase::Active { handle }) => Ok(WriteCmd { handle, bytes: data }),
            _ => Err(SendError::NotConnected),
        }
    }

    /// Disconnect a peer: look up and remove in one critical section.
    ///
    /// When a record is found it leaves the registry unconditionally and
    /// `Disconnected` is emitted; the returned handle tells the caller
    /// which transport to close, and a close failure afterwards cannot put
    /// the record back.  Without an active record the call fails with
    /// `NotConnected` and nothing changes — benign when the receive loop
    /// already cleaned up.
    pub fn disconnect(&mut self, peer: &String, sink: &mut Vec<Event>) -> (r: Result<
        u64,
        DisconnectError,
    >)
        requires
            old(self).wf(),
        ensures
            final(self).wf(),
            final(self)@ == reg_after_disconnect(old(self)@, peer@),
            disconnect_hit(old(self)@, peer@) ==> {
                &&& r matches Ok(h) && h == phase_handle(old(self)@[peer@])
                &&& sink_grew(old(sink)@, final(sink)@, seq![EventV::Disconnected { peer: peer@ }])
            },
            !disconnect_hit(old(self)@, peer@) ==> {
                &&& r matches Err(e) && e is NotConnected
                &&& sink_unchanged(old(sink)@, final(sink)@)
            },
    {
        let handle = match self.registry.phase_of(peer) {
            Some(Phase::Active { handle }) => handle,
            _ => {
                return Err(DisconnectError::NotConnected);
            },
        };
        let _ = self.registry.remove_peer(peer);
        sink.push(Event::Disconnected { peer: peer.clone() });
        Ok(handle)
    }

    /// The receive loop's own cleanup once it terminates: remove exactly
    /// this loop's record if it is still present — a no-op, not an error,
    /// when an explicit disconnect already removed it — and emit the final
    /// `Disconnected` event.
    pub fn loop_cleanup(&mut self, peer: &String, handle: u64, sink: &mut Vec<Event>)
        requires
            old(self).wf(),
        ensures
            final(self).wf(),
            final(self)@ == reg_after_cleanup(old(self)@, peer@, handle),
            sink_grew(old(sink)@, final(sink)@, seq![EventV::Disconnected { peer: peer@ }]),
    {
        let ghost reg0 = self@;
        let mine = match self.registry.phase_of(peer) {
            Some(Phase::Active { handle: h }) => h == handle,
            _ => false,
        };
        if mine {
            let _ = self.registry.remove_peer(peer);
        }
        sink.push(Event::Disconnected { peer: peer.clone() });
    }
}

} // verus!
