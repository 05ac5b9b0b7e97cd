use btserial::errors::{disconnect_finish, send_finish, ConnectError, DisconnectError, SendError};
use btserial::events::Event;
use btserial::manager::Manager;
use btserial::registry::Phase;

fn connect(m: &mut Manager, sink: &mut Vec<Event>, peer: &str, handle: u64) {
    let p = peer.to_string();
    let proceed = m.begin_connect(&p, sink);
    assert!(proceed);
    let r = m.finish_connect(&p, Ok(handle), sink);
    assert!(r.is_ok());
}

#[test]
fn never_connected_peer_is_refused() {
    let mut m = Manager::new();
    let mut sink: Vec<Event> = Vec::new();
    let p = "00:11:22:33:44:55".to_string();
    assert!(matches!(m.send_plan(&p, vec![1, 2, 3]), Err(SendError::NotConnected)));
    assert!(matches!(m.disconnect(&p, &mut sink), Err(DisconnectError::NotConnected)));
    assert!(sink.is_empty());
}

#[test]
fn connect_then_send_uses_the_connected_handle() {
    let mut m = Manager::new();
    let mut sink: Vec<Event> = Vec::new();
    connect(&mut m, &mut sink, "aa:bb", 7);
    let cmd = m.send_plan(&"aa:bb".to_string(), b"AT\r\n".to_vec()).unwrap();
    assert_eq!(cmd.handle, 7);
    assert_eq!(cmd.bytes, b"AT\r\n".to_vec());
    assert_eq!(sink.len(), 1);
    assert!(matches!(&sink[0], Event::Connected { peer } if peer == "aa:bb"));
}

#[test]
fn second_connect_reports_already_connected() {
    let mut m = Manager::new();
    let mut sink: Vec<Event> = Vec::new();
    connect(&mut m, &mut sink, "aa:bb", 1);
    let p = "aa:bb".to_string();
    let proceed = m.begin_connect(&p, &mut sink);
    assert!(!proceed);
    assert!(matches!(&sink[1], Event::AlreadyConnected { peer } if peer == "aa:bb"));
    // still exactly one record for the peer, with the first connect's handle
    assert_eq!(m.registry.entries.len(), 1);
    assert_eq!(m.registry.phase_of(&p), Some(Phase::Active { handle: 1 }));
}

#[test]
fn failed_connect_leaves_no_record() {
    let mut m = Manager::new();
    let mut sink: Vec<Event> = Vec::new();
    let p = "aa:bb".to_string();
    assert!(m.begin_connect(&p, &mut sink));
    let r = m.finish_connect(&p, Err(ConnectError::TransportConnect("no route".to_string())), &mut sink);
    assert!(matches!(r, Err(ConnectError::TransportConnect(reason)) if reason == "no route"));
    assert_eq!(m.registry.phase_of(&p), None);
    assert_eq!(sink.len(), 1);
    assert!(
        matches!(&sink[0], Event::ConnectionFailed { peer, reason } if peer == "aa:bb" && reason == "no route")
    );
    // the rollback makes a later retry start from scratch
    assert!(m.begin_connect(&p, &mut sink));
}

#[test]
fn unknown_peer_connect_reports_peer_not_found() {
    let mut m = Manager::new();
    let mut sink: Vec<Event> = Vec::new();
    let p = "zz:zz".to_string();
    assert!(m.begin_connect(&p, &mut sink));
    let r = m.finish_connect(&p, Err(ConnectError::PeerNotFound), &mut sink);
    assert!(matches!(r, Err(ConnectError::PeerNotFound)));
    assert_eq!(m.registry.phase_of(&p), None);
    assert!(
        matches!(&sink[0], Event::ConnectionFailed { peer, reason }
            if peer == "zz:zz" && reason == "peer not found among paired devices")
    );
}

#[test]
fn disconnect_removes_record_even_if_close_fails() {
    let mut m = Manager::new();
    let mut sink: Vec<Event> = Vec::new();
    connect(&mut m, &mut sink, "aa:bb", 3);
    let p = "aa:bb".to_string();
    let handle = m.disconnect(&p, &mut sink).unwrap();
    assert_eq!(handle, 3);
    // the transport close fails afterwards; the record stays removed
    let r = disconnect_finish(Some("close failed".to_string()));
    assert!(matches!(r, Err(DisconnectError::TransportClose(reason)) if reason == "close failed"));
    assert_eq!(m.registry.phase_of(&p), None);
    assert!(matches!(&sink[1], Event::Disconnected { peer } if peer == "aa:bb"));
}

#[test]
fn send_after_disconnect_is_refused() {
    let mut m = Manager::new();
    let mut sink: Vec<Event> = Vec::new();
    connect(&mut m, &mut sink, "aa:bb", 3);
    let p = "aa:bb".to_string();
    m.disconnect(&p, &mut sink).unwrap();
    assert!(matches!(m.send_plan(&p, vec![9]), Err(SendError::NotConnected)));
}

#[test]
fn disconnect_twice_is_benign() {
    let mut m = Manager::new();
    let mut sink: Vec<Event> = Vec::new();
    connect(&mut m, &mut sink, "aa:bb", 3);
    let p = "aa:bb".to_string();
    assert!(m.disconnect(&p, &mut sink).is_ok());
    assert!(matches!(m.disconnect(&p, &mut sink), Err(DisconnectError::NotConnected)));
    // exactly one Disconnected was emitted
    let disconnects = sink
        .iter()
        .filter(|e| matches!(e, Event::Disconnected { .. }))
        .count();
    assert_eq!(disconnects, 1);
}

#[test]
fn reserved_peer_is_not_sendable_and_not_disconnectable() {
    let mut m = Manager::new();
    let mut sink: Vec<Event> = Vec::new();
    let p = "aa:bb".to_string();
    assert!(m.begin_connect(&p, &mut sink));
    // connect still in flight: a reservation blocks a second connect ...
    assert!(!m.begin_connect(&p, &mut sink));
    // ... but is no connection yet for send or disconnect
    assert!(matches!(m.send_plan(&p, vec![1]), Err(SendError::NotConnected)));
    assert!(matches!(m.disconnect(&p, &mut sink), Err(DisconnectError::NotConnected)));
}

#[test]
fn independent_peers_do_not_interfere() {
    let mut m = Manager::new();
    let mut sink: Vec<Event> = Vec::new();
    connect(&mut m, &mut sink, "aa:aa", 1);
    connect(&mut m, &mut sink, "bb:bb", 2);
    let pa = "aa:aa".to_string();
    let pb = "bb:bb".to_string();
    m.disconnect(&pa, &mut sink).unwrap();
    assert_eq!(m.registry.phase_of(&pa), None);
    assert_eq!(m.registry.phase_of(&pb), Some(Phase::Active { handle: 2 }));
    let cmd = m.send_plan(&pb, vec![5]).unwrap();
    assert_eq!(cmd.handle, 2);
}

#[test]
fn send_finish_maps_write_outcome() {
    assert!(send_finish(None).is_ok());
    assert!(
        matches!(send_finish(Some("pipe broke".to_string())),
            Err(SendError::TransportWrite(reason)) if reason == "pipe broke")
    );
}

#[test]
fn disconnect_finish_maps_close_outcome() {
    assert!(disconnect_finish(None).is_ok());
    assert!(
        matches!(disconnect_finish(Some("already closed".to_string())),
            Err(DisconnectError::TransportClose(reason)) if reason == "already closed")
    );
}

#[test]
fn each_send_is_one_contiguous_write() {
    let mut m = Manager::new();
    let mut sink: Vec<Event> = Vec::new();
    connect(&mut m, &mut sink, "aa:bb", 1);
    let p = "aa:bb".to_string();
    // a write log as a boundary-recording transport double would keep it
    let mut log: Vec<(u64, Vec<u8>)> = Vec::new();
    let first = m.send_plan(&p, b"AT+NAME?\r\n".to_vec()).unwrap();
    log.push((first.handle, first.bytes));
    let second = m.send_plan(&p, b"AT+RESET\r\n".to_vec()).unwrap();
    log.push((second.handle, second.bytes));
    // each call's bytes appear as one whole record, never split
    assert_eq!(log.len(), 2);
    assert_eq!(log[0], (1, b"AT+NAME?\r\n".to_vec()));
    assert_eq!(log[1], (1, b"AT+RESET\r\n".to_vec()));
}
