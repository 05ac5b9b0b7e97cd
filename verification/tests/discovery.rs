use btserial::discovery::{build_peer_list, device_entry, lookup_peer, PeerInfo};

#[test]
fn device_entry_keeps_a_reported_name() {
    let e = device_entry("aa:bb".to_string(), Some("Printer".to_string()));
    assert_eq!(e.address, "aa:bb");
    assert_eq!(e.name, "Printer");
}

#[test]
fn device_entry_falls_back_on_a_placeholder_name() {
    let e = device_entry("aa:bb".to_string(), None);
    assert_eq!(e.address, "aa:bb");
    assert_eq!(e.name, "Unknown Device");
}

#[test]
fn build_peer_list_keeps_order_and_defaults_names() {
    let raw = vec![
        ("aa:aa".to_string(), Some("One".to_string())),
        ("bb:bb".to_string(), None),
        ("cc:cc".to_string(), Some("Three".to_string())),
    ];
    let list = build_peer_list(&raw);
    assert_eq!(list.len(), 3);
    assert_eq!(list[0].address, "aa:aa");
    assert_eq!(list[0].name, "One");
    assert_eq!(list[1].address, "bb:bb");
    assert_eq!(list[1].name, "Unknown Device");
    assert_eq!(list[2].address, "cc:cc");
    assert_eq!(list[2].name, "Three");
}

#[test]
fn lookup_peer_finds_the_first_match() {
    let devices = vec![
        PeerInfo { address: "aa:aa".to_string(), name: "One".to_string() },
        PeerInfo { address: "bb:bb".to_string(), name: "Two".to_string() },
    ];
    assert_eq!(lookup_peer(&devices, &"bb:bb".to_string()), Some(1));
    assert_eq!(lookup_peer(&devices, &"aa:aa".to_string()), Some(0));
}

#[test]
fn lookup_peer_reports_a_missing_peer() {
    let devices = vec![
        PeerInfo { address: "aa:aa".to_string(), name: "One".to_string() },
    ];
    assert_eq!(lookup_peer(&devices, &"zz:zz".to_string()), None);
}

#[test]
fn lookup_peer_on_an_empty_list() {
    let devices: Vec<PeerInfo> = Vec::new();
    assert_eq!(lookup_peer(&devices, &"aa:aa".to_string()), None);
}
