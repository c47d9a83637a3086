//! The streamer's registry of peers: who sits in which slot, and what each
//! may send.

use crate::api_bindings::{PlayerSlot, RoomRole};
use crate::ipc::PeerId;
use std::collections::HashMap;
use vstd::std_specs::iter::IteratorSpec;
use vstd::prelude::*;

verus! {

broadcast use vstd::std_specs::hash::group_hash_axioms;

/// What the streamer knows of one peer.
#[derive(Clone, Copy, Debug, PartialEq, Eq, Structural)]
pub struct PeerInfo {
    /// The peer's slot; a spectator has none.
    pub player_slot: Option<PlayerSlot>,
    pub role: RoomRole,
    pub video_frame_queue_size: usize,
    pub audio_sample_queue_size: usize,
}

/// The role of a peer that is known by its slot alone: the host in slot 0,
/// a player elsewhere.
pub open spec fn role_of_slot(slot: PlayerSlot) -> RoomRole {
    if slot.0 == 0 {
        RoomRole::Host
    } else {
        RoomRole::Player
    }
}

/// The slot that is kept for a peer of the given role: none for a spectator,
/// else the one it was given.
pub open spec fn slot_for_role(role: RoomRole, slot: Option<PlayerSlot>) -> Option<PlayerSlot> {
    if role is Spectator {
        None
    } else {
        slot
    }
}

/// Whether a peer with this entry may use keyboard, mouse and touch: the
/// host always, a spectator never, a player if the guests are allowed to.
pub open spec fn info_can_use_keyboard_mouse(info: PeerInfo, guests_enabled: bool) -> bool {
    match info.role {
        RoomRole::Host => true,
        RoomRole::Spectator => false,
        RoomRole::Player => guests_enabled,
    }
}

/// The gamepad under which the streaming host sees pad `browser_gamepad_id`
/// of a peer with this entry. A peer has one pad, its pad 0, and the host
/// sees it under the number of the peer's slot.
pub open spec fn info_gamepad(info: PeerInfo, browser_gamepad_id: u8) -> Option<u8> {
    if browser_gamepad_id != 0 {
        None
    } else {
        match info.player_slot {
            Some(slot) => Some(slot.0),
            None => None,
        }
    }
}

/// The registry as a mathematical value.
pub struct PeerManagerView {
    /// The entry of each known peer, by the number of its `PeerId`.
    pub peers: Map<u64, PeerInfo>,
    pub guests_keyboard_mouse_enabled: bool,
}

impl PeerManagerView {
    /// What `can_use_keyboard_mouse` answers for `peer_id`.
    pub open spec fn can_use_keyboard_mouse(self, peer_id: PeerId) -> bool {
        self.peers.contains_key(peer_id.0) && info_can_use_keyboard_mouse(
            self.peers[peer_id.0],
            self.guests_keyboard_mouse_enabled,
        )
    }

    /// What `map_gamepad_id` answers for `peer_id` and one of its pads.
    pub open spec fn map_gamepad_id(self, peer_id: PeerId, browser_gamepad_id: u8) -> Option<u8> {
        if self.peers.contains_key(peer_id.0) {
            info_gamepad(self.peers[peer_id.0], browser_gamepad_id)
        } else {
            None
        }
    }

    /// The queue sizes of `peer_id`, video first, if the peer is known.
    pub open spec fn queue_sizes(self, peer_id: PeerId) -> Option<(usize, usize)> {
        if self.peers.contains_key(peer_id.0) {
            Some(
                (
                    self.peers[peer_id.0].video_frame_queue_size,
                    self.peers[peer_id.0].audio_sample_queue_size,
                ),
            )
        } else {
            None
        }
    }

    /// The registry after `peer_id` was entered, or entered anew.
    pub open spec fn with_peer(self, peer_id: PeerId, info: PeerInfo) -> PeerManagerView {
        PeerManagerView { peers: self.peers.insert(peer_id.0, info), ..self }
    }

    /// The registry without `peer_id`.
    pub open spec fn without_peer(self, peer_id: PeerId) -> PeerManagerView {
        PeerManagerView { peers: self.peers.remove(peer_id.0), ..self }
    }

    /// The registry after the guests were allowed keyboard and mouse, or not.
    pub open spec fn with_guests_keyboard_mouse(self, enabled: bool) -> PeerManagerView {
        PeerManagerView { guests_keyboard_mouse_enabled: enabled, ..self }
    }

    /// No spectator has a slot.
    pub open spec fn spectators_have_no_slot(self) -> bool {
        forall|id: u64| #[trigger]
            self.peers.contains_key(id) && self.peers[id].role is Spectator
                ==> self.peers[id].player_slot is None
    }
}

/// Maps the peers of one streamer to their slots and roles.
#[derive(Debug)]
pub struct PeerManager {
    peers: HashMap<u64, PeerInfo>,
    guests_keyboard_mouse_enabled: bool,
}

impl View for PeerManager {
    type V = PeerManagerView;

    closed spec fn view(&self) -> PeerManagerView {
        PeerManagerView {
            peers: self.peers@,
            guests_keyboard_mouse_enabled: self.guests_keyboard_mouse_enabled,
        }
    }
}

impl PeerManager {
    /// No peers, and the guests without keyboard and mouse.
    pub fn new() -> (r: Self)
        ensures
            r@.peers == Map::<u64, PeerInfo>::empty(),
            !r@.guests_keyboard_mouse_enabled,
    {
        PeerManager { peers: HashMap::new(), guests_keyboard_mouse_enabled: false }
    }

    /// Allows the guests keyboard and mouse, or takes them away.
    pub fn set_guests_keyboard_mouse_enabled(&mut self, enabled: bool)
        ensures
            final(self)@ == old(self)@.with_guests_keyboard_mouse(enabled),
    {
        self.guests_keyboard_mouse_enabled = enabled;
    }

    pub fn guests_keyboard_mouse_enabled(&self) -> (r: bool)
        ensures
            r == self@.guests_keyboard_mouse_enabled,
    {
        self.guests_keyboard_mouse_enabled
    }

    /// Enters a peer that is known by its slot: as the host in slot 0, as a
    /// player elsewhere. An earlier entry of the same peer is replaced.
    pub fn add_peer(
        &mut self,
        peer_id: PeerId,
        player_slot: PlayerSlot,
        video_frame_queue_size: usize,
        audio_sample_queue_size: usize,
    )
        ensures
            final(self)@ == old(self)@.with_peer(
                peer_id,
                PeerInfo {
                    player_slot: Some(player_slot),
                    role: role_of_slot(player_slot),
                    video_frame_queue_size,
                    audio_sample_queue_size,
                },
            ),
    {
        let role = if player_slot.is_host() {
            RoomRole::Host
        } else {
            RoomRole::Player
        };
        self.add_peer_with_role(
            peer_id,
            Some(player_slot),
            role,
            video_frame_queue_size,
            audio_sample_queue_size,
        );
    }

    /// Enters a peer with its role. A spectator is entered without a slot,
    /// whatever `player_slot` holds. An earlier entry of the same peer is
    /// replaced.
    pub fn add_peer_with_role(
        &mut self,
        peer_id: PeerId,
        player_slot: Option<PlayerSlot>,
        role: RoomRole,
        video_frame_queue_size: usize,
        audio_sample_queue_size: usize,
    )
        ensures
            final(self)@ == old(self)@.with_peer(
                peer_id,
                PeerInfo {
                    player_slot: slot_for_role(role, player_slot),
                    role,
                    video_frame_queue_size,
                    audio_sample_queue_size,
                },
            ),
            old(self)@.spectators_have_no_slot() ==> final(self)@.spectators_have_no_slot(),
    {
        let player_slot = if role.is_spectator() {
            None
        } else {
            player_slot
        };
        self.peers.insert(
            peer_id.0,
            PeerInfo { player_slot, role, video_frame_queue_size, audio_sample_queue_size },
        );
    }

    /// Takes a peer out and hands back what was known of it.
    pub fn remove_peer(&mut self, peer_id: PeerId) -> (r: Option<PeerInfo>)
        ensures
            final(self)@ == old(self)@.without_peer(peer_id),
            r == (if old(self)@.peers.contains_key(peer_id.0) {
                Some(old(self)@.peers[peer_id.0])
            } else {
                None
            }),
            old(self)@.spectators_have_no_slot() ==> final(self)@.spectators_have_no_slot(),
    {
        self.peers.remove(&peer_id.0)
    }

    pub fn get_peer(&self, peer_id: PeerId) -> (r: Option<&PeerInfo>)
        ensures
            r == (if self@.peers.contains_key(peer_id.0) {
                Some(&self@.peers[peer_id.0])
            } else {
                None
            }),
    {
        self.peers.get(&peer_id.0)
    }

    /// The slot of a peer; `None` for a spectator and for a peer that is not
    /// known.
    pub fn get_player_slot(&self, peer_id: PeerId) -> (r: Option<PlayerSlot>)
        ensures
            r == (if self@.peers.contains_key(peer_id.0) {
                self@.peers[peer_id.0].player_slot
            } else {
                None
            }),
    {
        match self.peers.get(&peer_id.0) {
            Some(info) => info.player_slot,
            None => None,
        }
    }

    /// The queue sizes of a peer, video first.
    pub fn get_peer_queue_sizes(&self, peer_id: PeerId) -> (r: Option<(usize, usize)>)
        ensures
            r == self@.queue_sizes(peer_id),
    {
        match self.peers.get(&peer_id.0) {
            Some(info) => Some((info.video_frame_queue_size, info.audio_sample_queue_size)),
            None => None,
        }
    }

    /// Gives a known peer another role, and the slot that goes with it: none
    /// for a spectator, else `player_slot`. Says whether the peer was known;
    /// nothing changes if it was not.
    pub fn update_peer_role(
        &mut self,
        peer_id: PeerId,
        new_role: RoomRole,
        player_slot: Option<PlayerSlot>,
    ) -> (r: bool)
        ensures
            r == old(self)@.peers.contains_key(peer_id.0),
            r ==> final(self)@ == old(self)@.with_peer(
                peer_id,
                PeerInfo {
                    player_slot: slot_for_role(new_role, player_slot),
                    role: new_role,
                    ..old(self)@.peers[peer_id.0]
                },
            ),
            !r ==> final(self)@ == old(self)@,
            old(self)@.spectators_have_no_slot() ==> final(self)@.spectators_have_no_slot(),
    {
        let known = match self.peers.get(&peer_id.0) {
            Some(info) => Some(*info),
            None => None,
        };
        match known {
            Some(info) => {
                let player_slot = if new_role.is_spectator() {
                    None
                } else {
                    player_slot
                };
                self.peers.insert(peer_id.0, PeerInfo { player_slot, role: new_role, ..info });
                true
            },
            None => {
                assert(self@ == old(self)@);
                false
            },
        }
    }

    /// Whether a peer may use keyboard, mouse and touch. The host always may,
    /// a spectator never; a player may if the guests are allowed to. A peer
    /// that is not known may not.
    pub fn can_use_keyboard_mouse(&self, peer_id: PeerId) -> (r: bool)
        ensures
            r == self@.can_use_keyboard_mouse(peer_id),
    {
        match self.peers.get(&peer_id.0) {
            Some(info) => match info.role {
                RoomRole::Host => true,
                RoomRole::Spectator => false,
                RoomRole::Player => self.guests_keyboard_mouse_enabled,
            },
            None => false,
        }
    }

    /// The gamepad under which the streaming host sees a pad of a peer.
    ///
    /// A browser numbers its pads from 0. Each peer has one pad at the host,
    /// its pad 0, under the number of its slot: pad 0 of the player in slot 2
    /// is gamepad 2. Every other pad is refused, and so is every pad of a
    /// spectator or of a peer that is not known.
    pub fn map_gamepad_id(&self, peer_id: PeerId, browser_gamepad_id: u8) -> (r: Option<u8>)
        ensures
            r == self@.map_gamepad_id(peer_id, browser_gamepad_id),
    {
        match self.peers.get(&peer_id.0) {
            None => None,
            Some(info) => {
                if browser_gamepad_id != 0 {
                    return None;
                }
                match info.player_slot {
                    Some(slot) => Some(slot.gamepad_slot()),
                    None => None,
                }
            },
        }
    }

    /// The known peers, each once, in no particular order.
    pub fn peer_ids(&self) -> (r: Vec<PeerId>)
        ensures
            r@.no_duplicates(),
            r@.len() == self@.peers.dom().len(),
            forall|id: u64| self@.peers.contains_key(id) <==> r@.contains(PeerId(id)),
    {
        let mut ids: Vec<PeerId> = Vec::new();
        let ghost keys = vstd::std_specs::hash::spec_keys_iter(&self.peers).remaining();
        for key in it: self.peers.keys()
            invariant
                it.seq() == keys,
                ids@.len() == it.index(),
                forall|i: int| 0 <= i < ids@.len() ==> (#[trigger] ids@[i]).0 == *keys[i],
        {
            ids.push(PeerId(*key));
        }
        proof {
            assert(keys.unref().to_set() == self.peers@.dom());
            assert forall|i: int, j: int| 0 <= i < ids@.len() && 0 <= j < ids@.len() && i != j implies ids@[i] != ids@[j] by {
                assert(keys[i] != keys[j]);
            }
            assert forall|id: u64| self@.peers.contains_key(id) <==> ids@.contains(PeerId(id)) by {
                if self@.peers.contains_key(id) {
                    assert(keys.unref().to_set().contains(id));
                    let i = choose|i: int| 0 <= i < keys.unref().len() && keys.unref()[i] == id;
                    assert(ids@[i] == PeerId(id));
                }
                if ids@.contains(PeerId(id)) {
                    let i = choose|i: int| 0 <= i < ids@.len() && ids@[i] == PeerId(id);
                    assert(keys.unref()[i] == id);
                    assert(keys.unref().to_set().contains(id));
                }
            }
        }
        ids
    }

    pub fn peer_count(&self) -> (r: usize)
        ensures
            r == self@.peers.dom().len(),
    {
        self.peers.len()
    }

    pub fn has_peers(&self) -> (r: bool)
        ensures
            r == (self@.peers.dom().len() != 0),
    {
        !self.peers.is_empty()
    }
}

impl Default for PeerManager {
    fn default() -> (r: Self)
        ensures
            r@.peers == Map::<u64, PeerInfo>::empty(),
            !r@.guests_keyboard_mouse_enabled,
    {
        PeerManager::new()
    }
}

/// The host may always use keyboard and mouse, and a spectator never may,
/// whatever the guests are allowed.
pub proof fn lemma_host_and_spectator_access(v: PeerManagerView, peer_id: PeerId)
    requires
        v.peers.contains_key(peer_id.0),
    ensures
        v.peers[peer_id.0].role is Host ==> v.can_use_keyboard_mouse(peer_id),
        v.peers[peer_id.0].role is Spectator ==> !v.can_use_keyboard_mouse(peer_id),
{
}

/// Once the guests are allowed keyboard and mouse, a player may use them,
/// and stays allowed while peers come, go and change: only taking the
/// allowance back ends it. A player, asked while the guests are not
/// allowed, may not.
pub proof fn lemma_guest_access(
    v: PeerManagerView,
    player: PeerId,
    other: PeerId,
    info: PeerInfo,
)
    requires
        v.peers.contains_key(player.0),
        v.peers[player.0].role is Player,
        other != player,
    ensures
        v.with_guests_keyboard_mouse(true).can_use_keyboard_mouse(player),
        !v.with_guests_keyboard_mouse(false).can_use_keyboard_mouse(player),
        v.with_guests_keyboard_mouse(true).with_peer(other, info).can_use_keyboard_mouse(player),
        v.with_guests_keyboard_mouse(true).without_peer(other).can_use_keyboard_mouse(player),
        v.with_guests_keyboard_mouse(true).with_guests_keyboard_mouse(true).can_use_keyboard_mouse(
            player,
        ),
{
}

/// Pad 0 of a peer is the gamepad of the peer's slot, and the peer has no
/// other pad.
pub proof fn lemma_gamepad_of_slot(v: PeerManagerView, peer_id: PeerId, browser_gamepad_id: u8)
    requires
        v.peers.contains_key(peer_id.0),
    ensures
        v.map_gamepad_id(peer_id, 0) == (match v.peers[peer_id.0].player_slot {
            Some(slot) => Some(slot.0),
            None => None,
        }),
        browser_gamepad_id != 0 ==> v.map_gamepad_id(peer_id, browser_gamepad_id) is None,
{
}

} // verus!
