//! A table with one entry for each peer, in the order in which the peers
//! were entered.

use crate::ipc::PeerId;
use vstd::prelude::*;

verus! {

/// Whether no peer has two entries in `s`.
pub open spec fn distinct_peers<V>(s: Seq<(PeerId, V)>) -> bool {
    forall|i: int, j: int| 0 <= i < s.len() && 0 <= j < s.len() && i != j ==> s[i].0 != s[j].0
}

/// Whether `peer` has an entry in `s`.
pub open spec fn has_peer<V>(s: Seq<(PeerId, V)>, peer: PeerId) -> bool {
    exists|i: int| 0 <= i < s.len() && (#[trigger] s[i]).0 == peer
}

/// The place of an entry of `peer` in `s`; where no peer has two entries, the
/// place of its one entry.
pub open spec fn index_of<V>(s: Seq<(PeerId, V)>, peer: PeerId) -> int
    recommends
        has_peer(s, peer),
{
    choose|i: int| 0 <= i < s.len() && (#[trigger] s[i]).0 == peer
}

/// What `s` holds for `peer`.
pub open spec fn lookup<V>(s: Seq<(PeerId, V)>, peer: PeerId) -> Option<V> {
    if has_peer(s, peer) {
        Some(s[index_of(s, peer)].1)
    } else {
        None
    }
}

/// `s` without the entry of `peer`; the other entries keep their order.
pub open spec fn without<V>(s: Seq<(PeerId, V)>, peer: PeerId) -> Seq<(PeerId, V)> {
    if has_peer(s, peer) {
        s.remove(index_of(s, peer))
    } else {
        s
    }
}

/// `s` with `value` entered for `peer` as the newest entry, in place of what
/// `s` held for `peer` before.
pub open spec fn with<V>(s: Seq<(PeerId, V)>, peer: PeerId, value: V) -> Seq<(PeerId, V)> {
    without(s, peer).push((peer, value))
}

/// `s` with `value` in place of what it holds for `peer`, at the same place.
/// Where `s` holds nothing for `peer`, `s` itself.
pub open spec fn replaced<V>(s: Seq<(PeerId, V)>, peer: PeerId, value: V) -> Seq<(PeerId, V)> {
    if has_peer(s, peer) {
        s.update(index_of(s, peer), (peer, value))
    } else {
        s
    }
}

/// The peers of `s`, in the order of their entries.
pub open spec fn peers_of<V>(s: Seq<(PeerId, V)>) -> Seq<PeerId> {
    Seq::new(s.len(), |i: int| s[i].0)
}

/// Where no peer has two entries, the entry at place `i` is the one that is
/// found for its peer.
pub proof fn lemma_index_of<V>(s: Seq<(PeerId, V)>, i: int)
    requires
        distinct_peers(s),
        0 <= i < s.len(),
    ensures
        has_peer(s, s[i].0),
        index_of(s, s[i].0) == i,
        lookup(s, s[i].0) == Some(s[i].1),
{
    assert(s[i].0 == s[i].0);
}

/// Taking a peer out leaves no entry of it, keeps every other peer's entry,
/// and keeps the table free of doubles.
pub proof fn lemma_without<V>(s: Seq<(PeerId, V)>, peer: PeerId)
    requires
        distinct_peers(s),
    ensures
        distinct_peers(without(s, peer)),
        !has_peer(without(s, peer), peer),
        forall|other: PeerId|
            other != peer ==> lookup(without(s, peer), other) == lookup(s, other) && has_peer(
                without(s, peer),
                other,
            ) == has_peer(s, other),
        has_peer(s, peer) ==> without(s, peer).len() == s.len() - 1,
{
    let w = without(s, peer);
    if has_peer(s, peer) {
        let k = index_of(s, peer);
        assert forall|i: int| 0 <= i < w.len() implies (#[trigger] w[i]) == s[if i < k {
            i
        } else {
            i + 1
        }] by {}
        assert forall|other: PeerId| other != peer implies lookup(w, other) == lookup(s, other)
            && has_peer(w, other) == has_peer(s, other) by {
            if has_peer(s, other) {
                let j = index_of(s, other);
                let j2 = if j < k {
                    j
                } else {
                    j - 1
                };
                assert(w[j2] == s[j]);
                lemma_index_of(w, j2);
            }
            if has_peer(w, other) {
                let j = index_of(w, other);
                let j2 = if j < k {
                    j
                } else {
                    j + 1
                };
                assert(s[j2] == w[j]);
                lemma_index_of(s, j2);
                lemma_index_of(w, j);
            }
        }
        if has_peer(w, peer) {
            let j = index_of(w, peer);
            let j2 = if j < k {
                j
            } else {
                j + 1
            };
            assert(s[j2].0 == peer);
        }
    } else {
        assert(w == s);
    }
}

/// Entering a peer leaves exactly one entry of it, the new one at the end,
/// keeps every other peer's entry, and keeps the table free of doubles.
pub proof fn lemma_with<V>(s: Seq<(PeerId, V)>, peer: PeerId, value: V)
    requires
        distinct_peers(s),
    ensures
        distinct_peers(with(s, peer, value)),
        lookup(with(s, peer, value), peer) == Some(value),
        has_peer(with(s, peer, value), peer),
        forall|other: PeerId|
            other != peer ==> lookup(with(s, peer, value), other) == lookup(s, other) && has_peer(
                with(s, peer, value),
                other,
            ) == has_peer(s, other),
        !has_peer(s, peer) ==> with(s, peer, value) == s.push((peer, value)),
{
    lemma_without(s, peer);
    let w = without(s, peer);
    let n = with(s, peer, value);
    assert(n == w.push((peer, value)));
    assert forall|i: int, j: int| 0 <= i < n.len() && 0 <= j < n.len() && i != j implies n[i].0
        != n[j].0 by {
        if i < w.len() && j < w.len() {
        } else if i < w.len() {
            assert(w[i].0 != peer);
        } else {
            assert(w[j].0 != peer);
        }
    }
    lemma_index_of(n, w.len() as int);
    assert forall|other: PeerId| other != peer implies lookup(n, other) == lookup(s, other)
        && has_peer(n, other) == has_peer(s, other) by {
        if has_peer(w, other) {
            let j = index_of(w, other);
            assert(n[j] == w[j]);
            lemma_index_of(n, j);
            lemma_index_of(w, j);
        }
        if has_peer(n, other) {
            let j = index_of(n, other);
            assert(j < w.len());
            assert(w[j] == n[j]);
            lemma_index_of(w, j);
            lemma_index_of(n, j);
        }
    }
}

/// Replacing the value of a peer keeps every peer at its place, keeps every
/// other peer's value, and keeps the table free of doubles.
pub proof fn lemma_replaced<V>(s: Seq<(PeerId, V)>, peer: PeerId, value: V)
    requires
        distinct_peers(s),
    ensures
        distinct_peers(replaced(s, peer, value)),
        peers_of(replaced(s, peer, value)) == peers_of(s),
        has_peer(s, peer) ==> lookup(replaced(s, peer, value), peer) == Some(value),
        forall|other: PeerId|
            has_peer(replaced(s, peer, value), other) == has_peer(s, other) && (other != peer
                ==> lookup(replaced(s, peer, value), other) == lookup(s, other)),
{
    let n = replaced(s, peer, value);
    if has_peer(s, peer) {
        let k = index_of(s, peer);
        assert forall|i: int| 0 <= i < n.len() implies (#[trigger] n[i]).0 == s[i].0 by {}
        assert(peers_of(n) =~= peers_of(s));
        lemma_index_of(n, k);
        assert forall|other: PeerId|
            has_peer(n, other) == has_peer(s, other) && (other != peer ==> lookup(n, other)
                == lookup(s, other)) by {
            if has_peer(s, other) {
                let j = index_of(s, other);
                assert(n[j].0 == other);
                lemma_index_of(n, j);
                lemma_index_of(s, j);
            }
            if has_peer(n, other) {
                let j = index_of(n, other);
                assert(s[j].0 == other);
                lemma_index_of(s, j);
                lemma_index_of(n, j);
            }
        }
    }
}

/// One value for each of some peers, in the order in which the peers were
/// entered. No peer has two entries.
pub struct PeerTable<V> {
    entries: Vec<(PeerId, V)>,
}

impl<V> View for PeerTable<V> {
    type V = Seq<(PeerId, V)>;

    closed spec fn view(&self) -> Seq<(PeerId, V)> {
        self.entries@
    }
}

impl<V> PeerTable<V> {
    /// No peer has two entries. Every table that this module hands out is
    /// well formed, and its functions keep it so.
    pub open spec fn wf(&self) -> bool {
        distinct_peers(self@)
    }

    /// The empty table.
    pub fn new() -> (r: Self)
        ensures
            r@ == Seq::<(PeerId, V)>::empty(),
            r.wf(),
    {
        PeerTable { entries: Vec::new() }
    }

    pub fn len(&self) -> (r: usize)
        ensures
            r == self@.len(),
    {
        self.entries.len()
    }

    pub fn is_empty(&self) -> (r: bool)
        ensures
            r == (self@.len() == 0),
    {
        self.entries.len() == 0
    }

    /// The place of the entry of `peer`.
    fn position(&self, peer: PeerId) -> (r: Option<usize>)
        requires
            self.wf(),
        ensures
            r is Some == has_peer(self@, peer),
            r matches Some(i) ==> i < self@.len() && i == index_of(self@, peer),
    {
        let mut i: usize = 0;
        while i < self.entries.len()
            invariant
                self.wf(),
                i <= self.entries@.len(),
                forall|j: int| 0 <= j < i ==> (#[trigger] self.entries@[j]).0 != peer,
            decreases self.entries.len() - i,
        {
            if self.entries[i].0 == peer {
                proof {
                    lemma_index_of(self@, i as int);
                }
                return Some(i);
            }
            i += 1;
        }
        None
    }

    /// Whether `peer` has an entry.
    pub fn contains(&self, peer: PeerId) -> (r: bool)
        requires
            self.wf(),
        ensures
            r == has_peer(self@, peer),
    {
        self.position(peer).is_some()
    }

    /// The value of `peer`, if it has an entry.
    pub fn get(&self, peer: PeerId) -> (r: Option<&V>)
        requires
            self.wf(),
        ensures
            r == (match lookup(self@, peer) {
                Some(v) => Some(&v),
                None => None,
            }),
    {
        match self.position(peer) {
            Some(i) => Some(&self.entries[i].1),
            None => None,
        }
    }

    /// The peer and the value at place `i`.
    pub fn entry(&self, i: usize) -> (r: (PeerId, &V))
        requires
            i < self@.len(),
        ensures
            r.0 == self@[i as int].0,
            *r.1 == self@[i as int].1,
    {
        (self.entries[i].0, &self.entries[i].1)
    }

    /// Enters `value` for `peer` as the newest entry and hands back what
    /// the table held for `peer` before.
    pub fn insert(&mut self, peer: PeerId, value: V) -> (r: Option<V>)
        requires
            old(self).wf(),
        ensures
            final(self).wf(),
            final(self)@ == with(old(self)@, peer, value),
            r == lookup(old(self)@, peer),
    {
        let before = self.remove(peer);
        proof {
            lemma_with(old(self)@, peer, value);
        }
        self.entries.push((peer, value));
        before
    }

    /// Puts `value` in place of the value of `peer` and hands the earlier
    /// value back. A table without an entry of `peer` stays as it is, and
    /// `value` comes back.
    pub fn replace(&mut self, peer: PeerId, value: V) -> (r: Result<V, V>)
        requires
            old(self).wf(),
        ensures
            final(self).wf(),
            final(self)@ == replaced(old(self)@, peer, value),
            r == (match lookup(old(self)@, peer) {
                Some(before) => Ok::<V, V>(before),
                None => Err::<V, V>(value),
            }),
    {
        match self.position(peer) {
            Some(i) => {
                proof {
                    lemma_replaced(self@, peer, value);
                }
                let before = self.entries.remove(i);
                self.entries.insert(i, (peer, value));
                assert(self.entries@ =~= replaced(old(self)@, peer, value));
                Ok(before.1)
            },
            None => Err(value),
        }
    }

    /// Takes the entry of `peer` out and hands its value back.
    pub fn remove(&mut self, peer: PeerId) -> (r: Option<V>)
        requires
            old(self).wf(),
        ensures
            final(self).wf(),
            final(self)@ == without(old(self)@, peer),
            r == lookup(old(self)@, peer),
    {
        match self.position(peer) {
            Some(i) => {
                proof {
                    lemma_without(self@, peer);
                }
                let entry = self.entries.remove(i);
                Some(entry.1)
            },
            None => None,
        }
    }

    /// Takes every entry out and hands them back in their order.
    pub fn take_all(&mut self) -> (r: Vec<(PeerId, V)>)
        ensures
            final(self).wf(),
            final(self)@ == Seq::<(PeerId, V)>::empty(),
            r@ == old(self)@,
    {
        let mut taken: Vec<(PeerId, V)> = Vec::new();
        std::mem::swap(&mut self.entries, &mut taken);
        taken
    }

    /// The peers, in the order of their entries.
    pub fn peers(&self) -> (r: Vec<PeerId>)
        ensures
            r@ == peers_of(self@),
    {
        let mut peers: Vec<PeerId> = Vec::new();
        let mut i: usize = 0;
        while i < self.entries.len()
            invariant
                i <= self.entries@.len(),
                peers@.len() == i,
                forall|j: int| 0 <= j < i ==> peers@[j] == (#[trigger] self.entries@[j]).0,
            decreases self.entries.len() - i,
        {
            peers.push(self.entries[i].0);
            i += 1;
        }
        assert(peers@ =~= peers_of(self@));
        peers
    }
}

} // verus!
