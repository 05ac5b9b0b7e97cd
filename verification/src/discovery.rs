//! The computing side of peer discovery.
//!
//! Enumerating paired devices is the discovery collaborator's job; what
//! the library owns is turning its raw answers into peer entries and
//! resolving a requested peer against the list.

use vstd::prelude::*;

verus! {

/// One paired peer: its stable identifier and a display name.
pub struct PeerInfo {
    pub address: String,
    pub name: String,
}

/// Build one peer entry from a raw discovery answer.  A device whose name
/// could not be read is still listed, under a placeholder name.
pub fn device_entry(address: String, name: Option<String>) -> (r: PeerInfo)
    ensures
        r.address@ == address@,
        name matches Some(n) ==> r.name@ == n@,
        name is None ==> r.name@ == "Unknown Device"@,
{
    match name {
        Some(n) => PeerInfo { address, name: n },
        None => PeerInfo { address, name: "Unknown Device".to_owned() },
    }
}

/// Build the paired-peer list from raw discovery answers, one entry per
/// answer, in the order the collaborator reported them.
pub fn build_peer_list(raw: &Vec<(String, Option<String>)>) -> (r: Vec<PeerInfo>)
    ensures
        r@.len() == raw@.len(),
        forall|i: int|
            0 <= i < raw@.len() ==> {
                &&& (#[trigger] r@[i]).address@ == raw@[i].0@
                &&& (raw@[i].1 matches Some(n) ==> r@[i].name@ == n@)
                &&& (raw@[i].1 is None ==> r@[i].name@ == "Unknown Device"@)
            },
{
    let n = raw.len();
    let mut out: Vec<PeerInfo> = Vec::new();
    let mut i: usize = 0;
    while i < n
        invariant
            n == raw@.len(),
            i <= n,
            out@.len() == i,
            forall|j: int|
                0 <= j < i ==> {
                    &&& (#[trigger] out@[j]).address@ == raw@[j].0@
                    &&& (raw@[j].1 matches Some(nm) ==> out@[j].name@ == nm@)
                    &&& (raw@[j].1 is None ==> out@[j].name@ == "Unknown Device"@)
                },
        decreases n - i,
    {
        let name = match &raw[i].1 {
            Some(nm) => Some(nm.clone()),
            None => None,
        };
        out.push(device_entry(raw[i].0.clone(), name));
        i = i + 1;
    }
    out
}

/// Find the requested peer in the paired list: the first entry whose
/// address matches, or nothing when no entry matches.
pub fn lookup_peer(devices: &Vec<PeerInfo>, address: &String) -> (r: Option<usize>)
    ensures
        r matches Some(i) ==> {
            &&& i < devices@.len()
            &&& devices@[i as int].address@ == address@
            &&& forall|j: int| 0 <= j < i ==> devices@[j].address@ != address@
        },
        r is None ==> forall|j: int|
            0 <= j < devices@.len() ==> devices@[j].address@ != address@,
{
    let n = devices.len();
    let mut i: usize = 0;
    while i < n
        invariant
            n == devices@.len(),
            i <= n,
            forall|j: int| 0 <= j < i ==> devices@[j].address@ != address@,
        decreases n - i,
    {
        if devices[i].address == *address {
            return Some(i);
        }
        i = i + 1;
    }
    None
}

} // verus!
