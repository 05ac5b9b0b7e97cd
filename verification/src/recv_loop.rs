//! The per-connection receive loop, as a state machine.
//!
//! One loop instance exists per successful connect.  The surrounding
//! runtime owns the blocking parts — the bounded read, the pause, the
//! `is_connected` probe — and feeds each outcome into the state machine,
//! which decides the next state and emits the events owed.  The runtime's
//! side of the protocol follows the state: `Reading` asks for a read,
//! `AwaitCheck` for a pause and a connectivity probe, `Terminating` for
//! the cleanup call, and `Exited` ends the loop for good.

use vstd::prelude::*;
use crate::events::{Event, EventV, sink_grew, sink_unchanged};
use crate::manager::Manager;
use crate::manager::reg_after_cleanup;

verus! {

/// Where the receive loop stands.
#[derive(Clone, Copy, PartialEq, Eq, Structural, Debug)]
pub enum LoopState {
    /// Acquire the transport lock and attempt a bounded read.
    Reading,
    /// A read returned nothing: pause briefly, then probe `is_connected`.
    AwaitCheck,
    /// The connection is over: clean up the registry record and emit the
    /// final `Disconnected` event.
    Terminating,
    /// The loop is finished and will never run again.
    Exited,
}

/// The outcome of one bounded read attempt on the transport.
pub enum ReadOutcome {
    /// The read returned these bytes (at least one).
    Bytes { bytes: Vec<u8> },
    /// The read returned zero bytes.
    Empty,
    /// The read timed out; not fatal in itself.
    TimedOut,
    /// Any other read error; fatal for the loop.
    Failed { reason: String },
}

/// The mathematical value of a `ReadOutcome`.
pub enum ReadOutcomeV {
    Bytes { bytes: Seq<u8> },
    Empty,
    TimedOut,
    Failed { reason: Seq<char> },
}

impl View for ReadOutcome {
    type V = ReadOutcomeV;

    open spec fn view(&self) -> ReadOutcomeV {
        match self {
            ReadOutcome::Bytes { bytes } => ReadOutcomeV::Bytes { bytes: bytes@ },
            ReadOutcome::Empty => ReadOutcomeV::Empty,
            ReadOutcome::TimedOut => ReadOutcomeV::TimedOut,
            ReadOutcome::Failed { reason } => ReadOutcomeV::Failed { reason: reason@ },
        }
    }
}

/// The state after one read outcome is fed in while `Reading`.
pub open spec fn read_step_state(o: ReadOutcomeV) -> LoopState {
    match o {
        ReadOutcomeV::Bytes { .. } => LoopState::Reading,
        ReadOutcomeV::Empty => LoopState::AwaitCheck,
        ReadOutcomeV::TimedOut => LoopState::AwaitCheck,
        ReadOutcomeV::Failed { .. } => LoopState::Terminating,
    }
}

/// The events one read outcome makes the loop emit: one data event per
/// non-empty read, one error event for a fatal read error, else nothing.
pub open spec fn read_step_events(peer: Seq<char>, o: ReadOutcomeV) -> Seq<EventV> {
    match o {
        ReadOutcomeV::Bytes { bytes } => seq![EventV::Data { peer, bytes }],
        ReadOutcomeV::Empty => Seq::empty(),
        ReadOutcomeV::TimedOut => Seq::empty(),
        ReadOutcomeV::Failed { reason } => seq![EventV::Error { peer, reason }],
    }
}

/// The state after the connectivity probe that follows an empty read or a
/// timeout.
pub open spec fn check_step_state(connected: bool) -> LoopState {
    if connected {
        LoopState::Reading
    } else {
        LoopState::Terminating
    }
}

/// One interaction the runtime feeds into the loop: a read outcome, or
/// the answer of a connectivity probe.
pub enum LoopEv {
    Read(ReadOutcomeV),
    Check(bool),
}

/// The state after one interaction.  Interactions that the protocol does
/// not allow in the current state leave it unchanged.
pub open spec fn step_state(st: LoopState, ev: LoopEv) -> LoopState {
    match (st, ev) {
        (LoopState::Reading, LoopEv::Read(o)) => read_step_state(o),
        (LoopState::AwaitCheck, LoopEv::Check(c)) => check_step_state(c),
        _ => st,
    }
}

/// The events one interaction makes the loop emit.
pub open spec fn step_events(peer: Seq<char>, st: LoopState, ev: LoopEv) -> Seq<EventV> {
    match (st, ev) {
        (LoopState::Reading, LoopEv::Read(o)) => read_step_events(peer, o),
        _ => Seq::empty(),
    }
}

/// The state after a whole sequence of interactions.
pub open spec fn run_state(st: LoopState, evs: Seq<LoopEv>) -> LoopState
    decreases evs.len(),
{
    if evs.len() == 0 {
        st
    } else {
        run_state(step_state(st, evs[0]), evs.drop_first())
    }
}

/// Everything the loop emits over a whole sequence of interactions, in
/// order.
pub open spec fn run_events(peer: Seq<char>, st: LoopState, evs: Seq<LoopEv>) -> Seq<EventV>
    decreases evs.len(),
{
    if evs.len() == 0 {
        Seq::empty()
    } else {
        step_events(peer, st, evs[0]) + run_events(
            peer,
            step_state(st, evs[0]),
            evs.drop_first(),
        )
    }
}

/// The runtime follows the protocol: reads are fed in only while
/// `Reading`, probe answers only while `AwaitCheck`.
pub open spec fn valid_trace(st: LoopState, evs: Seq<LoopEv>) -> bool
    decreases evs.len(),
{
    evs.len() == 0 || ({
        &&& match evs[0] {
            LoopEv::Read(_) => st is Reading,
            LoopEv::Check(_) => st is AwaitCheck,
        }
        &&& valid_trace(step_state(st, evs[0]), evs.drop_first())
    })
}

/// The payloads of the non-empty reads of a trace, in order.
pub open spec fn payloads_of(evs: Seq<LoopEv>) -> Seq<Seq<u8>>
    decreases evs.len(),
{
    if evs.len() == 0 {
        Seq::empty()
    } else {
        (match evs[0] {
            LoopEv::Read(ReadOutcomeV::Bytes { bytes }) => seq![bytes],
            _ => Seq::<Seq<u8>>::empty(),
        }) + payloads_of(evs.drop_first())
    }
}

/// The payloads of the data events in an emitted event sequence, in order.
pub open spec fn data_payloads(out: Seq<EventV>) -> Seq<Seq<u8>>
    decreases out.len(),
{
    if out.len() == 0 {
        Seq::empty()
    } else {
        (match out[0] {
            EventV::Data { bytes, .. } => seq![bytes],
            _ => Seq::<Seq<u8>>::empty(),
        }) + data_payloads(out.drop_first())
    }
}

/// One receive loop instance: its peer, the handle of the transport it
/// drains, and where it stands.
pub struct RecvLoop {
    pub peer: String,
    pub handle: u64,
    pub state: LoopState,
}

impl RecvLoop {
    /// A fresh loop for a connection that was just registered; it starts
    /// in `Reading`.
    pub fn new(peer: String, handle: u64) -> (r: RecvLoop)
        ensures
            r.peer == peer,
            r.handle == handle,
            r.state == LoopState::Reading,
    {
        RecvLoop { peer, handle, state: LoopState::Reading }
    }

    /// Feed in the outcome of one bounded read.
    ///
    /// Bytes are forwarded to the sink as one data event and the loop
    /// keeps reading; an empty read or a timeout defers to a connectivity
    /// probe; any other read error is reported as an `Error` event and
    /// ends the loop.
    pub fn on_read(&mut self, outcome: ReadOutcome, sink: &mut Vec<Event>)
        requires
            old(self).state is Reading,
            outcome matches ReadOutcome::Bytes { bytes } ==> bytes@.len() > 0,
        ensures
            final(self).peer == old(self).peer,
            final(self).handle == old(self).handle,
            final(self).state == step_state(old(self).state, LoopEv::Read(outcome@)),
            sink_grew(
                old(sink)@,
                final(sink)@,
                step_events(old(self).peer@, old(self).state, LoopEv::Read(outcome@)),
            ),
    {
        match outcome {
            ReadOutcome::Bytes { bytes } => {
                sink.push(Event::Data { peer: self.peer.clone(), bytes });
            },
            ReadOutcome::Empty => {
                self.state = LoopState::AwaitCheck;
            },
            ReadOutcome::TimedOut => {
                self.state = LoopState::AwaitCheck;
            },
            ReadOutcome::Failed { reason } => {
                sink.push(Event::Error { peer: self.peer.clone(), reason });
                self.state = LoopState::Terminating;
            },
        }
    }

    /// Feed in the answer of the connectivity probe that follows an empty
    /// read or a timeout: still connected means keep reading, otherwise
    /// the loop terminates.
    pub fn on_check(&mut self, connected: bool, sink: &mut Vec<Event>)
        requires
            old(self).state is AwaitCheck,
        ensures
            final(self).peer == old(self).peer,
            final(self).handle == old(self).handle,
            final(self).state == step_state(old(self).state, LoopEv::Check(connected)),
            sink_unchanged(old(sink)@, final(sink)@),
    {
        if connected {
            self.state = LoopState::Reading;
        } else {
            self.state = LoopState::Terminating;
        }
    }

    /// The terminal transition: remove this loop's own registry record if
    /// it is still there (a no-op when an explicit disconnect already
    /// removed it), emit the final `Disconnected` event, and exit.
    pub fn cleanup(&mut self, manager: &mut Manager, sink: &mut Vec<Event>)
        requires
            old(self).state is Terminating,
            old(manager).wf(),
        ensures
            final(self).peer == old(self).peer,
            final(self).handle == old(self).handle,
            final(self).state == LoopState::Exited,
            final(manager).wf(),
            final(manager)@ == reg_after_cleanup(
                old(manager)@,
                old(self).peer@,
                old(self).handle,
            ),
            sink_grew(
                old(sink)@,
                final(sink)@,
                seq![EventV::Disconnected { peer: old(self).peer@ }],
            ),
    {
        manager.loop_cleanup(&self.peer, self.handle, sink);
        self.state = LoopState::Exited;
    }
}

} // verus!
