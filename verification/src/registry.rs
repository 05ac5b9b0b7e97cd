//! The connection registry: a mapping from peer identifier to the phase of
//! that peer's connection record.
//!
//! The registry is stored as a vector of entries with pairwise-distinct
//! peers, and its mathematical value is the finite map from peer (as a
//! character sequence) to phase.  All operation contracts in this crate
//! speak of that map.

use vstd::prelude::*;
use vstd::map::*;

verus! {

/// The phase of one peer's connection record.
///
/// A `Reserved` record is the placeholder inserted while a transport
/// connect is in flight: it makes presence-check-and-reserve one atomic
/// step, so two overlapping connect attempts can never both proceed.  Only
/// an `Active` record owns a connected transport, identified by the handle
/// the surrounding runtime assigned to it.
#[derive(Clone, Copy, PartialEq, Eq, Structural, Debug)]
pub enum Phase {
    Reserved,
    Active { handle: u64 },
}

/// One registry entry: a peer identifier and its record's phase.
pub struct Entry {
    pub peer: String,
    pub phase: Phase,
}

/// `s[i]` exists and carries the key `k`.
pub open spec fn has_key_at(s: Seq<Entry>, k: Seq<char>, i: int) -> bool {
    0 <= i < s.len() && s[i].peer@ == k
}

/// Some entry of `s` carries the key `k`.
pub open spec fn seq_has_key(s: Seq<Entry>, k: Seq<char>) -> bool {
    exists|i: int| has_key_at(s, k, i)
}

/// The index of the entry of `s` carrying `k` (meaningful when unique).
pub open spec fn seq_index_of(s: Seq<Entry>, k: Seq<char>) -> int {
    choose|i: int| has_key_at(s, k, i)
}

/// The phase recorded for `k` in `s`.
pub open spec fn seq_phase_of(s: Seq<Entry>, k: Seq<char>) -> Phase {
    s[seq_index_of(s, k)].phase
}

/// The map an entry sequence stands for.
pub open spec fn as_map(s: Seq<Entry>) -> Map<Seq<char>, Phase> {
    Map::new(|k: Seq<char>| seq_has_key(s, k), |k: Seq<char>| seq_phase_of(s, k))
}

/// The registry of connection records.  Invariant: at most one entry per
/// peer, so the entry sequence really is a map.
pub struct Registry {
    pub entries: Vec<Entry>,
}

impl View for Registry {
    type V = Map<Seq<char>, Phase>;

    open spec fn view(&self) -> Map<Seq<char>, Phase> {
        as_map(self.entries@)
    }
}

impl Registry {
    /// Well-formedness: peers are pairwise distinct.
    pub open spec fn wf(self) -> bool {
        forall|i: int, j: int|
            #![trigger self.entries@[i].peer@, self.entries@[j].peer@]
            0 <= i < self.entries@.len() && 0 <= j < self.entries@.len() && i != j
                ==> self.entries@[i].peer@ != self.entries@[j].peer@
    }

    /// An empty registry.
    pub fn new() -> (r: Registry)
        ensures
            r.wf(),
            r@ == Map::<Seq<char>, Phase>::empty(),
    {
        let r = Registry { entries: Vec::new() };
        proof {
            assert forall|k: Seq<char>| !seq_has_key(r.entries@, k) by {
                assert(forall|i: int| !has_key_at(r.entries@, k, i));
            }
            assert(r@ =~= Map::<Seq<char>, Phase>::empty());
        }
        r
    }

    /// The index of the entry for `peer`, if one exists.
    fn find(&self, peer: &String) -> (r: Option<usize>)
        ensures
            r matches Some(i) ==> has_key_at(self.entries@, peer@, i as int),
            r is None ==> !seq_has_key(self.entries@, peer@),
    {
        let n = self.entries.len();
        let mut i: usize = 0;
        while i < n
            invariant
                n == self.entries@.len(),
                i <= n,
                forall|j: int| 0 <= j < i ==> self.entries@[j].peer@ != peer@,
            decreases n - i,
        {
            if self.entries[i].peer == *peer {
                return Some(i);
            }
            i = i + 1;
        }
        proof {
            assert forall|j: int| !has_key_at(self.entries@, peer@, j) by {}
        }
        None
    }

    /// The phase recorded for `peer`, if any.
    pub fn phase_of(&self, peer: &String) -> (r: Option<Phase>)
        requires
            self.wf(),
        ensures
            r is Some <==> self@.dom().contains(peer@),
            r matches Some(ph) ==> self@[peer@] == ph,
    {
        match self.find(peer) {
            Some(i) => {
                let ph = self.entries[i].phase;
                proof {
                    self.lemma_key_unique(peer@, i as int, seq_index_of(self.entries@, peer@));
                }
                Some(ph)
            },
            None => None,
        }
    }

    /// Two entries carrying the same key are the same entry.
    proof fn lemma_key_unique(self, k: Seq<char>, i: int, j: int)
        requires
            self.wf(),
            has_key_at(self.entries@, k, i),
            has_key_at(self.entries@, k, j),
        ensures
            i == j,
    {
    }

    /// Record a new peer.  The caller must have checked absence first; the
    /// two steps are fused into one critical section by whoever owns the
    /// registry exclusively.
    pub fn insert_new(&mut self, peer: String, phase: Phase)
        requires
            old(self).wf(),
            !old(self)@.dom().contains(peer@),
        ensures
            final(self).wf(),
            final(self)@ == old(self)@.insert(peer@, phase),
    {
        let ghost s0 = self.entries@;
        let ghost p = peer@;
        self.entries.push(Entry { peer, phase });
        proof {
            let s1 = self.entries@;
            assert(!seq_has_key(s0, p));
            assert forall|i: int, j: int|
                #![trigger s1[i].peer@, s1[j].peer@]
                0 <= i < s1.len() && 0 <= j < s1.len() && i != j implies s1[i].peer@
                != s1[j].peer@ by {
                if i < s0.len() && j < s0.len() {
                    assert(s0[i].peer@ == s1[i].peer@ && s0[j].peer@ == s1[j].peer@);
                } else if j == s0.len() {
                    assert(!has_key_at(s0, p, i));
                } else {
                    assert(!has_key_at(s0, p, j));
                }
            }
            assert_maps_equal!(as_map(s1), as_map(s0).insert(p, phase), k => {
                if k == p {
                    assert(has_key_at(s1, p, s0.len() as int));
                    let j = seq_index_of(s1, p);
                    assert(has_key_at(s1, p, j));
                    if j < s0.len() {
                        assert(has_key_at(s0, p, j));
                    }
                    assert(seq_phase_of(s1, p) == phase);
                } else {
                    if seq_has_key(s0, k) {
                        let i = choose|i: int| has_key_at(s0, k, i);
                        assert(has_key_at(s1, k, i));
                        let j0 = seq_index_of(s0, k);
                        let j1 = seq_index_of(s1, k);
                        assert(has_key_at(s0, k, j0));
                        assert(has_key_at(s1, k, j1));
                        assert(j1 != s0.len() as int);
                        assert(has_key_at(s0, k, j1));
                        self.lemma_key_unique_seq(s0, k, j0, j1);
                    } else {
                        if seq_has_key(s1, k) {
                            let i = choose|i: int| has_key_at(s1, k, i);
                            assert(i != s0.len() as int);
                            assert(has_key_at(s0, k, i));
                        }
                    }
                }
            });
        }
    }

    /// Same as `lemma_key_unique`, stated over a raw entry sequence.
    proof fn lemma_key_unique_seq(self, s: Seq<Entry>, k: Seq<char>, i: int, j: int)
        requires
            forall|i: int, j: int|
                #![trigger s[i].peer@, s[j].peer@]
                0 <= i < s.len() && 0 <= j < s.len() && i != j ==> s[i].peer@ != s[j].peer@,
            has_key_at(s, k, i),
            has_key_at(s, k, j),
        ensures
            i == j,
    {
    }

    /// Remove the record for `peer`, returning its phase, or nothing if no
    /// record exists.  Lookup and removal are one step: the registry never
    /// answers "present" and then fails to remove.
    pub fn remove_peer(&mut self, peer: &String) -> (r: Option<Phase>)
        requires
            old(self).wf(),
        ensures
            final(self).wf(),
            final(self)@ == old(self)@.remove(peer@),
            r is Some <==> old(self)@.dom().contains(peer@),
            r matches Some(ph) ==> old(self)@[peer@] == ph,
    {
        let ghost s0 = self.entries@;
        let ghost p = peer@;
        match self.find(peer) {
            Some(i) => {
                let e = self.entries.remove(i);
                proof {
                    let s1 = self.entries@;
                    assert(s1 == s0.remove(i as int));
                    assert(s1.len() == s0.len() - 1);
                    assert forall|j: int| 0 <= j < s1.len() implies s1[j] == (if j < i as int {
                        s0[j]
                    } else {
                        s0[j + 1]
                    }) by {}
                    assert forall|a: int, b: int|
                        #![trigger s1[a].peer@, s1[b].peer@]
                        0 <= a < s1.len() && 0 <= b < s1.len() && a != b implies s1[a].peer@
                        != s1[b].peer@ by {
                        let a0: int = if a < i as int { a } else { a + 1 };
                        let b0: int = if b < i as int { b } else { b + 1 };
                        assert(s0[a0].peer@ != s0[b0].peer@);
                    }
                    self.lemma_key_unique_seq(s0, p, i as int, seq_index_of(s0, p));
                    assert(seq_phase_of(s0, p) == e.phase);
                    assert_maps_equal!(as_map(s1), as_map(s0).remove(p), k => {
                        if k == p {
                            if seq_has_key(s1, p) {
                                let j = choose|j: int| has_key_at(s1, p, j);
                                let j0: int = if j < i as int { j } else { j + 1 };
                                assert(has_key_at(s0, p, j0));
                                self.lemma_key_unique_seq(s0, p, j0, i as int);
                            }
                        } else {
                            if seq_has_key(s0, k) {
                                let j0 = choose|j: int| has_key_at(s0, k, j);
                                assert(j0 != i as int);
                                if j0 < i as int {
                                    assert(has_key_at(s1, k, j0));
                                } else {
                                    assert(has_key_at(s1, k, j0 - 1));
                                }
                                let t0 = seq_index_of(s0, k);
                                let t1 = seq_index_of(s1, k);
                                assert(has_key_at(s0, k, t0));
                                assert(has_key_at(s1, k, t1));
                                let t1up: int = if t1 < i as int { t1 } else { t1 + 1 };
                                assert(has_key_at(s0, k, t1up));
                                self.lemma_key_unique_seq(s0, k, t0, t1up);
                                assert(seq_phase_of(s1, k) == seq_phase_of(s0, k));
                            } else {
                                if seq_has_key(s1, k) {
                                    let j = choose|j: int| has_key_at(s1, k, j);
                                    let j0: int = if j < i as int { j } else { j + 1 };
                                    assert(has_key_at(s0, k, j0));
                                }
                            }
                        }
                    });
                }
                Some(e.phase)
            },
            None => {
                proof {
                    assert_maps_equal!(as_map(s0), as_map(s0).remove(p), k => {});
                }
                None
            },
        }
    }
}

} // verus!
