use btserial::events::Event;
use btserial::manager::Manager;
use btserial::recv_loop::{LoopState, ReadOutcome, RecvLoop};
use btserial::registry::Phase;

fn connected_manager(peer: &str, handle: u64) -> (Manager, Vec<Event>) {
    let mut m = Manager::new();
    let mut sink: Vec<Event> = Vec::new();
    let p = peer.to_string();
    assert!(m.begin_connect(&p, &mut sink));
    assert!(m.finish_connect(&p, Ok(handle), &mut sink).is_ok());
    (m, sink)
}

#[test]
fn data_events_keep_read_order() {
    let mut sink: Vec<Event> = Vec::new();
    let mut lp = RecvLoop::new("aa:bb".to_string(), 1);
    lp.on_read(ReadOutcome::Bytes { bytes: b"AT\r\n".to_vec() }, &mut sink);
    assert_eq!(lp.state, LoopState::Reading);
    lp.on_read(ReadOutcome::Bytes { bytes: b"OK\r\n".to_vec() }, &mut sink);
    assert_eq!(lp.state, LoopState::Reading);
    assert_eq!(sink.len(), 2);
    assert!(
        matches!(&sink[0], Event::Data { peer, bytes } if peer == "aa:bb" && bytes == &b"AT\r\n".to_vec())
    );
    assert!(
        matches!(&sink[1], Event::Data { peer, bytes } if peer == "aa:bb" && bytes == &b"OK\r\n".to_vec())
    );
}

#[test]
fn zero_read_then_lost_connection_emits_one_disconnected() {
    let (mut m, mut sink) = connected_manager("aa:bb", 1);
    let mut lp = RecvLoop::new("aa:bb".to_string(), 1);
    lp.on_read(ReadOutcome::Empty, &mut sink);
    assert_eq!(lp.state, LoopState::AwaitCheck);
    lp.on_check(false, &mut sink);
    assert_eq!(lp.state, LoopState::Terminating);
    lp.cleanup(&mut m, &mut sink);
    assert_eq!(lp.state, LoopState::Exited);
    // the registry entry is gone ...
    assert_eq!(m.registry.phase_of(&"aa:bb".to_string()), None);
    // ... and exactly one Disconnected was observed
    let disconnects = sink
        .iter()
        .filter(|e| matches!(e, Event::Disconnected { peer } if peer == "aa:bb"))
        .count();
    assert_eq!(disconnects, 1);
}

#[test]
fn zero_read_while_still_connected_keeps_reading() {
    let mut sink: Vec<Event> = Vec::new();
    let mut lp = RecvLoop::new("aa:bb".to_string(), 1);
    lp.on_read(ReadOutcome::Empty, &mut sink);
    assert_eq!(lp.state, LoopState::AwaitCheck);
    lp.on_check(true, &mut sink);
    assert_eq!(lp.state, LoopState::Reading);
    assert!(sink.is_empty());
}

#[test]
fn timeout_is_treated_like_a_zero_read() {
    let mut sink: Vec<Event> = Vec::new();
    let mut lp = RecvLoop::new("aa:bb".to_string(), 1);
    lp.on_read(ReadOutcome::TimedOut, &mut sink);
    assert_eq!(lp.state, LoopState::AwaitCheck);
    lp.on_check(true, &mut sink);
    assert_eq!(lp.state, LoopState::Reading);
    assert!(sink.is_empty());
}

#[test]
fn fatal_read_error_emits_error_then_disconnected() {
    let (mut m, mut sink) = connected_manager("aa:bb", 1);
    let mut lp = RecvLoop::new("aa:bb".to_string(), 1);
    lp.on_read(ReadOutcome::Failed { reason: "connection reset".to_string() }, &mut sink);
    assert_eq!(lp.state, LoopState::Terminating);
    lp.cleanup(&mut m, &mut sink);
    // events after the Connected one: Error, then Disconnected, in order
    assert_eq!(sink.len(), 3);
    assert!(
        matches!(&sink[1], Event::Error { peer, reason } if peer == "aa:bb" && reason == "connection reset")
    );
    assert!(matches!(&sink[2], Event::Disconnected { peer } if peer == "aa:bb"));
    assert_eq!(m.registry.phase_of(&"aa:bb".to_string()), None);
}

#[test]
fn cleanup_tolerates_an_already_removed_record() {
    let (mut m, mut sink) = connected_manager("aa:bb", 1);
    // an explicit disconnect wins the race against the loop's cleanup
    m.disconnect(&"aa:bb".to_string(), &mut sink).unwrap();
    let mut lp = RecvLoop::new("aa:bb".to_string(), 1);
    lp.on_read(ReadOutcome::Empty, &mut sink);
    lp.on_check(false, &mut sink);
    lp.cleanup(&mut m, &mut sink);
    // no panic, record still gone, loop exited
    assert_eq!(lp.state, LoopState::Exited);
    assert_eq!(m.registry.phase_of(&"aa:bb".to_string()), None);
}

#[test]
fn cleanup_spares_a_successor_connection() {
    let (mut m, mut sink) = connected_manager("aa:bb", 1);
    // the peer is disconnected and immediately reconnected with handle 2
    m.disconnect(&"aa:bb".to_string(), &mut sink).unwrap();
    let p = "aa:bb".to_string();
    assert!(m.begin_connect(&p, &mut sink));
    assert!(m.finish_connect(&p, Ok(2), &mut sink).is_ok());
    // the first connection's loop cleans up late: it must not remove the
    // successor's record
    let mut lp = RecvLoop::new("aa:bb".to_string(), 1);
    lp.on_read(ReadOutcome::Empty, &mut sink);
    lp.on_check(false, &mut sink);
    lp.cleanup(&mut m, &mut sink);
    assert_eq!(m.registry.phase_of(&p), Some(Phase::Active { handle: 2 }));
}
