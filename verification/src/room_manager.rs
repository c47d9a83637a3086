//! The registry of the rooms of one server: which room has which name, and
//! which peer is in which room.

use crate::ipc::PeerId;
use crate::peer_table::{distinct_peers, has_peer, lemma_with, lookup, with, PeerTable};
use rand::Rng;
use vstd::prelude::*;

verus! {

/// How many symbols the name of a room has.
pub const ROOM_ID_LENGTH: usize = 6;

/// Whether `c` is a symbol of a room's name: a capital letter or a digit.
pub open spec fn is_room_id_symbol(c: char) -> bool {
    ('0' <= c && c <= '9') || ('A' <= c && c <= 'Z')
}

/// Whether `id` is a room's name: six capital letters and digits.
pub open spec fn is_room_id(id: Seq<char>) -> bool {
    id.len() == 6 && forall|i: int| 0 <= i < id.len() ==> is_room_id_symbol(#[trigger] id[i])
}

/// The symbol with the number `index`: the digits first, then the letters.
pub open spec fn room_id_symbol(index: u8) -> char
    recommends
        index < 36,
{
    if index < 10 {
        ('0' as u8 + index) as char
    } else {
        ('A' as u8 + index - 10) as char
    }
}

/// How many symbols there are to draw from: ten digits and 26 letters.
pub const ROOM_ID_SYMBOLS: u8 = 36;

/// Draws a number below `bound` with `rand`: `Rng::gen_range` on the range
/// `0..bound`, from the generator of the current thread (`thread_rng`). Which
/// number comes is up to chance; all that is claimed is that it lies in the
/// range. An empty range is left out: `gen_range` does not take one.
#[verifier::external_body]
fn random_below(bound: u8) -> (r: u8)
    requires
        bound > 0,
    ensures
        r < bound,
{
    rand::thread_rng().gen_range(0..bound)
}

/// The symbol with the number `index`.
pub fn symbol(index: u8) -> (r: char)
    requires
        index < 36,
    ensures
        r == room_id_symbol(index),
        is_room_id_symbol(r),
{
    if index < 10 {
        (48u8 + index) as char
    } else {
        (65u8 + index - 10) as char
    }
}

/// The name that is made of six drawn numbers.
pub fn room_id_from_indices(indices: &[u8; 6]) -> (r: String)
    requires
        forall|i: int| 0 <= i < 6 ==> indices@[i] < 36,
    ensures
        r@ == Seq::new(6, |i: int| room_id_symbol(indices@[i])),
        is_room_id(r@),
{
    let mut id = String::new();
    let mut i: usize = 0;
    while i < 6
        invariant
            i <= 6,
            forall|k: int| 0 <= k < 6 ==> indices@[k] < 36,
            id@ == Seq::new(i as nat, |k: int| room_id_symbol(indices@[k])),
        decreases 6 - i,
    {
        id.push(symbol(indices[i]));
        i += 1;
        assert(id@ =~= Seq::new(i as nat, |k: int| room_id_symbol(indices@[k])));
    }
    id
}

/// Draws a name for a room: six symbols, each drawn on its own.
pub fn generate_room_id() -> (r: String)
    ensures
        is_room_id(r@),
{
    let indices: [u8; 6] = [
        random_below(ROOM_ID_SYMBOLS),
        random_below(ROOM_ID_SYMBOLS),
        random_below(ROOM_ID_SYMBOLS),
        random_below(ROOM_ID_SYMBOLS),
        random_below(ROOM_ID_SYMBOLS),
        random_below(ROOM_ID_SYMBOLS),
    ];
    room_id_from_indices(&indices)
}

/// Whether no two rooms of `rooms` have the same name.
pub open spec fn distinct_rooms<R>(rooms: Seq<(String, R)>) -> bool {
    forall|i: int, j: int|
        0 <= i < rooms.len() && 0 <= j < rooms.len() && i != j ==> rooms[i].0@ != rooms[j].0@
}

/// Whether `rooms` holds a room of the name `id`.
pub open spec fn has_room<R>(rooms: Seq<(String, R)>, id: Seq<char>) -> bool {
    exists|i: int| 0 <= i < rooms.len() && (#[trigger] rooms[i]).0@ == id
}

/// The place of a room of the name `id` in `rooms`.
pub open spec fn room_index<R>(rooms: Seq<(String, R)>, id: Seq<char>) -> int
    recommends
        has_room(rooms, id),
{
    choose|i: int| 0 <= i < rooms.len() && (#[trigger] rooms[i]).0@ == id
}

/// The room of the name `id`.
pub open spec fn room_of<R>(rooms: Seq<(String, R)>, id: Seq<char>) -> Option<R> {
    if has_room(rooms, id) {
        Some(rooms[room_index(rooms, id)].1)
    } else {
        None
    }
}

/// The room that `peer` is noted for, if that room exists.
pub open spec fn peer_room<R>(v: RoomManagerView<R>, peer: PeerId) -> Option<R> {
    match lookup(v.peer_to_room, peer) {
        Some(id) => room_of(v.rooms, id@),
        None => None,
    }
}

/// `peers` without those that are noted for the room `id`; the others keep
/// their order.
pub open spec fn peers_elsewhere(peers: Seq<(PeerId, String)>, id: Seq<char>) -> Seq<
    (PeerId, String),
>
    decreases peers.len(),
{
    if peers.len() == 0 {
        peers
    } else {
        let before = peers_elsewhere(peers.drop_last(), id);
        if peers.last().1@ == id {
            before
        } else {
            before.push(peers.last())
        }
    }
}

/// Where no two rooms have the same name, the room at place `i` is the one
/// that is found under its name.
pub proof fn lemma_room_index<R>(rooms: Seq<(String, R)>, i: int)
    requires
        distinct_rooms(rooms),
        0 <= i < rooms.len(),
    ensures
        has_room(rooms, rooms[i].0@),
        room_index(rooms, rooms[i].0@) == i,
        room_of(rooms, rooms[i].0@) == Some(rooms[i].1),
{
    assert(rooms[i].0@ == rooms[i].0@);
}

/// Every entry of what is left after the peers of a room were taken out was
/// an entry before, and no peer has two entries.
proof fn lemma_peers_elsewhere(peers: Seq<(PeerId, String)>, id: Seq<char>)
    requires
        distinct_peers(peers),
    ensures
        distinct_peers(peers_elsewhere(peers, id)),
        forall|k: int|
            0 <= k < peers_elsewhere(peers, id).len() ==> exists|j: int|
                0 <= j < peers.len() && peers[j] == (#[trigger] peers_elsewhere(peers, id)[k]),
    decreases peers.len(),
{
    if peers.len() > 0 {
        let init = peers.drop_last();
        lemma_peers_elsewhere(init, id);
        let before = peers_elsewhere(init, id);
        let all = peers_elsewhere(peers, id);
        assert forall|k: int| 0 <= k < all.len() implies exists|j: int|
            0 <= j < peers.len() && peers[j] == (#[trigger] all[k]) by {
            if k < before.len() {
                let j = choose|j: int| 0 <= j < init.len() && init[j] == before[k];
                assert(peers[j] == all[k]);
            } else {
                assert(peers[peers.len() - 1] == all[k]);
            }
        }
        assert forall|a: int, b: int|
            0 <= a < all.len() && 0 <= b < all.len() && a != b implies all[a].0 != all[b].0 by {
            if a < before.len() && b < before.len() {
            } else if a < before.len() {
                let j = choose|j: int| 0 <= j < init.len() && init[j] == before[a];
                assert(peers[j].0 != peers[peers.len() - 1].0);
            } else {
                let j = choose|j: int| 0 <= j < init.len() && init[j] == before[b];
                assert(peers[j].0 != peers[peers.len() - 1].0);
            }
        }
    }
}

/// The registry as a mathematical value.
pub struct RoomManagerView<R> {
    /// The rooms, each under its name, in the order in which they were made.
    pub rooms: Seq<(String, R)>,
    /// For each noted peer the name of its room.
    pub peer_to_room: Seq<(PeerId, String)>,
    /// The number of the next peer.
    pub next_peer_id: u64,
}

impl<R> RoomManagerView<R> {
    /// No two rooms have the same name, and no peer is noted twice.
    pub open spec fn wf(self) -> bool {
        distinct_rooms(self.rooms) && distinct_peers(self.peer_to_room)
    }
}

/// The rooms of one server.
///
/// The registry keeps one value of the type `R` for each room, hands it
/// out and never looks into it: the room itself, or a handle that several
/// tasks share.
pub struct RoomManager<R> {
    rooms: Vec<(String, R)>,
    peer_to_room: PeerTable<String>,
    next_peer_id: u64,
}

impl<R> View for RoomManager<R> {
    type V = RoomManagerView<R>;

    closed spec fn view(&self) -> RoomManagerView<R> {
        RoomManagerView {
            rooms: self.rooms@,
            peer_to_room: self.peer_to_room@,
            next_peer_id: self.next_peer_id,
        }
    }
}

impl<R> RoomManager<R> {
    /// Whether the registry is well formed. Every registry that `new` hands
    /// out is, and the functions of the registry keep it so.
    pub open spec fn wf(&self) -> bool {
        self@.wf()
    }

    /// A registry without rooms. Its first peer gets the number 1.
    pub fn new() -> (r: Self)
        ensures
            r.wf(),
            r@.rooms == Seq::<(String, R)>::empty(),
            r@.peer_to_room == Seq::<(PeerId, String)>::empty(),
            r@.next_peer_id == 1,
    {
        RoomManager { rooms: Vec::new(), peer_to_room: PeerTable::new(), next_peer_id: 1 }
    }

    /// The place of the room of the name `room_id`.
    fn position(&self, room_id: &String) -> (r: Option<usize>)
        requires
            self.wf(),
        ensures
            r is Some == has_room(self@.rooms, room_id@),
            r matches Some(i) ==> i < self@.rooms.len() && i == room_index(self@.rooms, room_id@),
    {
        let mut i: usize = 0;
        while i < self.rooms.len()
            invariant
                self.wf(),
                i <= self.rooms@.len(),
                forall|j: int| 0 <= j < i ==> (#[trigger] self.rooms@[j]).0@ != room_id@,
            decreases self.rooms.len() - i,
        {
            if self.rooms[i].0 == *room_id {
                proof {
                    lemma_room_index(self@.rooms, i as int);
                }
                return Some(i);
            }
            i += 1;
        }
        None
    }

    /// Enters a room under the name `room_id`. Where a room of that name
    /// exists already nothing changes, and `room` comes back: the caller
    /// draws another name and tries again.
    pub fn create_room(&mut self, room_id: String, room: R) -> (r: Option<R>)
        requires
            old(self).wf(),
        ensures
            final(self).wf(),
            has_room(old(self)@.rooms, room_id@) ==> r == Some(room) && final(self)@ == old(self)@,
            !has_room(old(self)@.rooms, room_id@) ==> r is None && final(self)@ == (RoomManagerView {
                rooms: old(self)@.rooms.push((room_id, room)),
                ..old(self)@
            }),
    {
        if self.position(&room_id).is_some() {
            return Some(room);
        }
        self.rooms.push((room_id, room));
        proof {
            let n = self@.rooms;
            let last = old(self)@.rooms.len() as int;
            assert forall|i: int, j: int|
                0 <= i < n.len() && 0 <= j < n.len() && i != j implies n[i].0@ != n[j].0@ by {
                if i < last && j < last {
                    assert(n[i] == old(self)@.rooms[i] && n[j] == old(self)@.rooms[j]);
                } else if i < last {
                    assert(n[i] == old(self)@.rooms[i]);
                } else {
                    assert(n[j] == old(self)@.rooms[j]);
                }
            }
        }
        None
    }

    /// The room of the name `room_id`.
    pub fn get_room(&self, room_id: &str) -> (r: Option<&R>)
        requires
            self.wf(),
        ensures
            r == (match room_of(self@.rooms, room_id@) {
                Some(room) => Some(&room),
                None => None,
            }),
    {
        let wanted = room_id.to_owned();
        match self.position(&wanted) {
            Some(i) => Some(&self.rooms[i].1),
            None => None,
        }
    }

    /// Notes that `peer_id` is in the room of the name `room_id`, in place of
    /// what was noted for the peer before.
    pub fn register_peer(&mut self, peer_id: PeerId, room_id: &str)
        requires
            old(self).wf(),
        ensures
            final(self).wf(),
            final(self)@.rooms == old(self)@.rooms,
            final(self)@.next_peer_id == old(self)@.next_peer_id,
            has_peer(final(self)@.peer_to_room, peer_id),
            lookup(final(self)@.peer_to_room, peer_id) matches Some(id) && id@ == room_id@,
            forall|other: PeerId|
                other != peer_id ==> lookup(final(self)@.peer_to_room, other) == lookup(
                    old(self)@.peer_to_room,
                    other,
                ),
    {
        let id = room_id.to_owned();
        proof {
            lemma_with(old(self)@.peer_to_room, peer_id, id);
        }
        self.peer_to_room.insert(peer_id, id);
    }

    /// The room that `peer_id` is noted for, if that room exists.
    pub fn get_peer_room(&self, peer_id: PeerId) -> (r: Option<&R>)
        requires
            self.wf(),
        ensures
            r == (match peer_room(self@, peer_id) {
                Some(room) => Some(&room),
                None => None,
            }),
    {
        match self.peer_to_room.get(peer_id) {
            Some(id) => match self.position(id) {
                Some(i) => Some(&self.rooms[i].1),
                None => None,
            },
            None => None,
        }
    }

    /// Strikes the note of `peer_id` and hands back the room that the peer
    /// was noted for, if that room exists: the caller takes the peer out of
    /// the room.
    pub fn remove_peer(&mut self, peer_id: PeerId) -> (r: Option<&R>)
        requires
            old(self).wf(),
        ensures
            final(self).wf(),
            final(self)@ == (RoomManagerView {
                peer_to_room: crate::peer_table::without(old(self)@.peer_to_room, peer_id),
                ..old(self)@
            }),
            r == (match peer_room(old(self)@, peer_id) {
                Some(room) => Some(&room),
                None => None,
            }),
    {
        match self.peer_to_room.remove(peer_id) {
            Some(id) => match self.position(&id) {
                Some(i) => Some(&self.rooms[i].1),
                None => None,
            },
            None => None,
        }
    }

    /// Takes the room of the name `room_id` out of the registry, strikes the
    /// notes of its peers, and hands the room back.
    pub fn delete_room(&mut self, room_id: &str) -> (r: Option<R>)
        requires
            old(self).wf(),
        ensures
            final(self).wf(),
            r == room_of(old(self)@.rooms, room_id@),
            final(self)@.rooms == (if has_room(old(self)@.rooms, room_id@) {
                old(self)@.rooms.remove(room_index(old(self)@.rooms, room_id@))
            } else {
                old(self)@.rooms
            }),
            !has_room(final(self)@.rooms, room_id@),
            final(self)@.peer_to_room == peers_elsewhere(old(self)@.peer_to_room, room_id@),
            final(self)@.next_peer_id == old(self)@.next_peer_id,
    {
        let wanted = room_id.to_owned();
        let removed = match self.position(&wanted) {
            Some(i) => {
                let entry = self.rooms.remove(i);
                proof {
                    let n = self@.rooms;
                    let o = old(self)@.rooms;
                    assert forall|a: int| 0 <= a < n.len() implies (#[trigger] n[a]) == o[if a < i {
                        a
                    } else {
                        a + 1
                    }] by {}
                    if has_room(n, room_id@) {
                        let a = room_index(n, room_id@);
                        assert(o[if a < i {
                            a
                        } else {
                            a + 1
                        }].0@ == room_id@);
                    }
                }
                Some(entry.1)
            },
            None => None,
        };
        let noted = self.peer_to_room.take_all();
        proof {
            lemma_peers_elsewhere(old(self)@.peer_to_room, room_id@);
        }
        let mut i: usize = 0;
        while i < noted.len()
            invariant
                i <= noted@.len(),
                noted@ == old(self)@.peer_to_room,
                distinct_peers(noted@),
                wanted@ == room_id@,
                self.peer_to_room.wf(),
                self.peer_to_room@ == peers_elsewhere(noted@.subrange(0, i as int), room_id@),
                self@.rooms == (if has_room(old(self)@.rooms, room_id@) {
                    old(self)@.rooms.remove(room_index(old(self)@.rooms, room_id@))
                } else {
                    old(self)@.rooms
                }),
                distinct_rooms(self@.rooms),
                !has_room(self@.rooms, room_id@),
                self@.next_peer_id == old(self)@.next_peer_id,
            decreases noted.len() - i,
        {
            proof {
                let next = noted@.subrange(0, i + 1);
                assert(next.drop_last() == noted@.subrange(0, i as int));
                assert(next.last() == noted@[i as int]);
                lemma_peers_elsewhere(noted@.subrange(0, i as int), room_id@);
                let kept = peers_elsewhere(noted@.subrange(0, i as int), room_id@);
                if has_peer(kept, noted@[i as int].0) {
                    let k = crate::peer_table::index_of(kept, noted@[i as int].0);
                    let j = choose|j: int|
                        0 <= j < noted@.subrange(0, i as int).len() && noted@.subrange(
                            0,
                            i as int,
                        )[j] == kept[k];
                    assert(noted@[j].0 == noted@[i as int].0);
                }
                lemma_with(kept, noted@[i as int].0, noted@[i as int].1);
            }
            if noted[i].1 != wanted {
                self.peer_to_room.insert(noted[i].0, noted[i].1.clone());
            }
            i += 1;
        }
        assert(noted@.subrange(0, i as int) == noted@);
        removed
    }

    /// A number for a new peer: the numbers come in rising order, from 1 on.
    /// After the highest number the count starts again at 0.
    pub fn generate_peer_id(&mut self) -> (r: PeerId)
        ensures
            r == PeerId(old(self)@.next_peer_id),
            final(self)@ == (RoomManagerView {
                next_peer_id: if old(self)@.next_peer_id == u64::MAX {
                    0
                } else {
                    (old(self)@.next_peer_id + 1) as u64
                },
                ..old(self)@
            }),
    {
        let id = self.next_peer_id;
        self.next_peer_id = if id == u64::MAX {
            0
        } else {
            id + 1
        };
        PeerId(id)
    }

    /// The rooms, in the order in which they were made.
    pub fn list_rooms(&self) -> (r: Vec<&R>)
        ensures
            r@.len() == self@.rooms.len(),
            forall|i: int| 0 <= i < r@.len() ==> *r@[i] == self@.rooms[i].1,
    {
        let mut rooms: Vec<&R> = Vec::new();
        let mut i: usize = 0;
        while i < self.rooms.len()
            invariant
                i <= self.rooms@.len(),
                rooms@.len() == i,
                forall|j: int| 0 <= j < i ==> *rooms@[j] == self.rooms@[j].1,
            decreases self.rooms.len() - i,
        {
            rooms.push(&self.rooms[i].1);
            i += 1;
        }
        rooms
    }
}

} // verus!
