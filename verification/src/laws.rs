//! The laws of the connection manager, stated over the same spec
//! functions the operation contracts use, and proved once and for all.

use vstd::prelude::*;
use vstd::map::*;
use crate::events::EventV;
use crate::manager::{
    begin_already, disconnect_hit, is_active, phase_handle, reg_after_begin, reg_after_cleanup,
    reg_after_disconnect, reg_after_finish_err, reg_after_finish_ok, send_verdict,
};
use crate::recv_loop::{
    data_payloads, payloads_of, run_events, run_state, step_events, step_state, valid_trace,
    LoopEv, LoopState, ReadOutcomeV,
};
use crate::registry::{has_key_at, Phase, Registry};

verus! {

/// A peer that was never connected is refused: `send` has no write to
/// plan and `disconnect` finds nothing to remove, so both answer
/// `NotConnected` and the registry stays as it was.
pub proof fn lemma_unknown_peer_refused(reg: Map<Seq<char>, Phase>, p: Seq<char>)
    requires
        !reg.dom().contains(p),
    ensures
        send_verdict(reg, p) is None,
        !disconnect_hit(reg, p),
        reg_after_disconnect(reg, p) == reg,
{
}

/// Connecting the same peer twice in sequence: once the first connect
/// has completed, a second attempt answers `AlreadyConnected` without
/// touching the registry, and the peer still holds its one active record.
pub proof fn lemma_second_connect_already(reg: Map<Seq<char>, Phase>, p: Seq<char>, h: u64)
    requires
        !reg.dom().contains(p),
    ensures
        ({
            let reg1 = reg_after_begin(reg, p);
            let reg2 = reg_after_finish_ok(reg1, p, h);
            &&& begin_already(reg2, p)
            &&& reg_after_begin(reg2, p) == reg2
            &&& is_active(reg2, p)
            &&& reg2[p] == Phase::Active { handle: h }
        }),
{
}

/// A failed connect leaves no trace: reserving an absent peer and then
/// rolling the reservation back returns the registry exactly to what it
/// was, whatever reason the transport reported.
pub proof fn lemma_failed_connect_leaves_no_trace(reg: Map<Seq<char>, Phase>, p: Seq<char>)
    requires
        !reg.dom().contains(p),
    ensures
        reg_after_finish_err(reg_after_begin(reg, p), p) == reg,
{
    let reg1 = reg_after_begin(reg, p);
    assert_maps_equal!(reg1.remove(p), reg, k => {});
}

/// In a well-formed registry a peer owns at most one record: any two
/// entries carrying the same peer are the same entry.
pub proof fn lemma_at_most_one_record(r: Registry, p: Seq<char>, i: int, j: int)
    requires
        r.wf(),
        has_key_at(r.entries@, p, i),
        has_key_at(r.entries@, p, j),
    ensures
        i == j,
{
}

/// Disconnecting a connected peer removes its record, and the close
/// outcome plays no part: the ensured registry is the same whether the
/// later transport close succeeds or fails.
pub proof fn lemma_disconnect_always_removes(
    reg: Map<Seq<char>, Phase>,
    p: Seq<char>,
    close_fails: bool,
)
    requires
        is_active(reg, p),
    ensures
        disconnect_hit(reg, p),
        reg_after_disconnect(reg, p) == reg.remove(p),
        !reg_after_disconnect(reg, p).dom().contains(p),
{
}

/// After a disconnect, a send for the same peer is refused with
/// `NotConnected`, whatever the registry held before.
pub proof fn lemma_send_after_disconnect(reg: Map<Seq<char>, Phase>, p: Seq<char>)
    ensures
        send_verdict(reg_after_disconnect(reg, p), p) is None,
{
    if is_active(reg, p) {
        assert(!reg.remove(p).dom().contains(p));
    }
}

/// Splitting `data_payloads` over concatenation.
proof fn lemma_data_payloads_concat(a: Seq<EventV>, b: Seq<EventV>)
    ensures
        data_payloads(a + b) == data_payloads(a) + data_payloads(b),
    decreases a.len(),
{
    if a.len() == 0 {
        assert(a + b =~= b);
        assert(data_payloads(a) == Seq::<Seq<u8>>::empty());
        assert(data_payloads(a) + data_payloads(b) =~= data_payloads(b));
    } else {
        lemma_data_payloads_concat(a.drop_first(), b);
        assert((a + b).drop_first() =~= a.drop_first() + b);
        assert((a + b)[0] == a[0]);
        assert(data_payloads(a + b) == data_payloads(a) + data_payloads(b)) by {
            assert(data_payloads(a + b) == (match (a + b)[0] {
                EventV::Data { bytes, .. } => seq![bytes],
                _ => Seq::<Seq<u8>>::empty(),
            }) + data_payloads(a.drop_first() + b));
            assert((match a[0] {
                EventV::Data { bytes, .. } => seq![bytes],
                _ => Seq::<Seq<u8>>::empty(),
            }) + (data_payloads(a.drop_first()) + data_payloads(b)) =~= ((match a[0] {
                EventV::Data { bytes, .. } => seq![bytes],
                _ => Seq::<Seq<u8>>::empty(),
            }) + data_payloads(a.drop_first())) + data_payloads(b));
        }
    }
}

/// Data events preserve read order: over any trace that respects the
/// loop protocol, the data payloads the loop emits are exactly the
/// payloads of the non-empty reads, in the order they were read.
pub proof fn lemma_data_events_in_read_order(peer: Seq<char>, st: LoopState, evs: Seq<LoopEv>)
    requires
        valid_trace(st, evs),
    ensures
        data_payloads(run_events(peer, st, evs)) == payloads_of(evs),
    decreases evs.len(),
{
    if evs.len() == 0 {
        assert(data_payloads(Seq::<EventV>::empty()) == Seq::<Seq<u8>>::empty());
    } else {
        let ev = evs[0];
        let st1 = step_state(st, ev);
        let head = step_events(peer, st, ev);
        let tail = run_events(peer, st1, evs.drop_first());
        lemma_data_events_in_read_order(peer, st1, evs.drop_first());
        lemma_data_payloads_concat(head, tail);
        let h = match ev {
            LoopEv::Read(ReadOutcomeV::Bytes { bytes }) => seq![bytes],
            _ => Seq::<Seq<u8>>::empty(),
        };
        assert(data_payloads(head) == h) by {
            match ev {
                LoopEv::Read(o) => {
                    match o {
                        ReadOutcomeV::Bytes { bytes } => {
                            assert(head == seq![EventV::Data { peer, bytes }]);
                            assert(head.drop_first() =~= Seq::<EventV>::empty());
                            assert(data_payloads(head.drop_first()) == Seq::<Seq<u8>>::empty());
                            assert(data_payloads(head) =~= seq![bytes]);
                        },
                        ReadOutcomeV::Failed { reason } => {
                            assert(head == seq![EventV::Error { peer, reason }]);
                            assert(head.drop_first() =~= Seq::<EventV>::empty());
                            assert(data_payloads(head.drop_first()) == Seq::<Seq<u8>>::empty());
                            assert(data_payloads(head) =~= Seq::<Seq<u8>>::empty());
                        },
                        _ => {
                            assert(head == Seq::<EventV>::empty());
                            assert(data_payloads(head) == Seq::<Seq<u8>>::empty());
                        },
                    }
                },
                LoopEv::Check(_) => {
                    assert(head == Seq::<EventV>::empty());
                    assert(data_payloads(head) == Seq::<Seq<u8>>::empty());
                },
            }
        }
        assert(payloads_of(evs) == h + payloads_of(evs.drop_first()));
    }
}

/// While it runs, the loop emits only data and read-error events.  In
/// particular it never emits `Disconnected` — that event comes from the
/// cleanup transition (or an explicit disconnect) alone, so it is always
/// the last event a loop produces — and never a connect-related event,
/// so `Connected` can only precede whatever data the loop forwards.
pub proof fn lemma_loop_emits_only_data_and_errors(peer: Seq<char>, st: LoopState, evs: Seq<LoopEv>)
    ensures
        forall|i: int|
            0 <= i < run_events(peer, st, evs).len() ==> ((#[trigger] run_events(peer, st, evs)[i])
                is Data || run_events(peer, st, evs)[i] is Error),
    decreases evs.len(),
{
    if evs.len() == 0 {
    } else {
        let ev = evs[0];
        let st1 = step_state(st, ev);
        let head = step_events(peer, st, ev);
        let tail = run_events(peer, st1, evs.drop_first());
        lemma_loop_emits_only_data_and_errors(peer, st1, evs.drop_first());
        assert forall|i: int|
            0 <= i < run_events(peer, st, evs).len() implies ((#[trigger] run_events(
            peer,
            st,
            evs,
        )[i]) is Data || run_events(peer, st, evs)[i] is Error) by {
            assert(run_events(peer, st, evs) == head + tail);
            if i < head.len() {
                assert((head + tail)[i] == head[i]);
            } else {
                assert((head + tail)[i] == tail[i - head.len()]);
            }
        }
    }
}

/// A zero-byte read followed by a failed connectivity probe terminates
/// the loop: those two steps emit nothing, and the cleanup transition
/// then removes the record and emits exactly one `Disconnected` — so the
/// whole path emits exactly that one event and leaves no record behind.
pub proof fn lemma_lost_connection_ends_loop(reg: Map<Seq<char>, Phase>, p: Seq<char>, h: u64)
    requires
        is_active(reg, p),
        phase_handle(reg[p]) == h,
    ensures
        step_state(LoopState::Reading, LoopEv::Read(ReadOutcomeV::Empty)) == LoopState::AwaitCheck,
        step_state(LoopState::AwaitCheck, LoopEv::Check(false)) == LoopState::Terminating,
        step_events(p, LoopState::Reading, LoopEv::Read(ReadOutcomeV::Empty)) + step_events(
            p,
            LoopState::AwaitCheck,
            LoopEv::Check(false),
        ) + seq![EventV::Disconnected { peer: p }] =~= seq![EventV::Disconnected { peer: p }],
        reg_after_cleanup(reg, p, h) == reg.remove(p),
        !reg_after_cleanup(reg, p, h).dom().contains(p),
{
}

/// The transport write log: each planned write is applied as one whole,
/// contiguous record.
pub open spec fn write_log_after(
    log: Seq<(u64, Seq<u8>)>,
    cmds: Seq<(u64, Seq<u8>)>,
) -> Seq<(u64, Seq<u8>)>
    decreases cmds.len(),
{
    if cmds.len() == 0 {
        log
    } else {
        write_log_after(log.push(cmds[0]), cmds.drop_first())
    }
}

/// Sends never corrupt the byte stream: however many whole-message
/// writes are applied, and from whatever log, the log afterwards is the
/// old log with each message appended intact as its own record — no
/// message is split or interleaved with another.
pub proof fn lemma_writes_stay_whole(log: Seq<(u64, Seq<u8>)>, cmds: Seq<(u64, Seq<u8>)>)
    ensures
        write_log_after(log, cmds) == log + cmds,
    decreases cmds.len(),
{
    if cmds.len() == 0 {
        assert(log + cmds =~= log);
    } else {
        lemma_writes_stay_whole(log.push(cmds[0]), cmds.drop_first());
        assert(log.push(cmds[0]) + cmds.drop_first() =~= log + cmds);
    }
}

/// The state machine run underlying `lemma_lost_connection_ends_loop`,
/// phrased over a whole trace: that two-step trace is protocol-valid and
/// ends in `Terminating` having emitted nothing.
pub proof fn lemma_lost_connection_trace(peer: Seq<char>)
    ensures
        valid_trace(
            LoopState::Reading,
            seq![LoopEv::Read(ReadOutcomeV::Empty), LoopEv::Check(false)],
        ),
        run_state(
            LoopState::Reading,
            seq![LoopEv::Read(ReadOutcomeV::Empty), LoopEv::Check(false)],
        ) == LoopState::Terminating,
        run_events(
            peer,
            LoopState::Reading,
            seq![LoopEv::Read(ReadOutcomeV::Empty), LoopEv::Check(false)],
        ) =~= Seq::<EventV>::empty(),
{
    reveal_with_fuel(run_state, 4);
    reveal_with_fuel(run_events, 4);
    reveal_with_fuel(valid_trace, 4);
    let evs = seq![LoopEv::Read(ReadOutcomeV::Empty), LoopEv::Check(false)];
    let tail = evs.drop_first();
    assert(evs[0] == LoopEv::Read(ReadOutcomeV::Empty));
    assert(tail.len() == 1);
    assert(tail[0] == LoopEv::Check(false));
    assert(tail.drop_first().len() == 0);
    assert(step_state(LoopState::Reading, evs[0]) == LoopState::AwaitCheck);
    assert(step_state(LoopState::AwaitCheck, tail[0]) == LoopState::Terminating);
    assert(run_state(LoopState::Reading, evs) == run_state(LoopState::AwaitCheck, tail));
    assert(run_state(LoopState::AwaitCheck, tail) == run_state(
        LoopState::Terminating,
        tail.drop_first(),
    ));
    assert(run_events(peer, LoopState::Reading, evs) == step_events(
        peer,
        LoopState::Reading,
        evs[0],
    ) + run_events(peer, LoopState::AwaitCheck, tail));
    assert(run_events(peer, LoopState::AwaitCheck, tail) == step_events(
        peer,
        LoopState::AwaitCheck,
        tail[0],
    ) + run_events(peer, LoopState::Terminating, tail.drop_first()));
    assert(valid_trace(step_state(LoopState::AwaitCheck, LoopEv::Check(false)), tail.drop_first()));
    assert(valid_trace(LoopState::AwaitCheck, tail));
}

} // verus!
