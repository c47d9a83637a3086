//! The rooms of the server: who is in which room, in which slot and role.

use crate::api_bindings::{
    PlayerSlot, RoomInfo, RoomParticipant, RoomPlayer, RoomRole, RtcIceServer, StreamCapabilities,
    StreamServerMessage,
};
use crate::ipc::{PeerId, ServerIpcMessage};
use crate::peer_table::{
    distinct_peers, has_peer, index_of, lemma_replaced, lemma_with, lemma_without,
    lookup, peers_of, replaced, with, without, PeerTable,
};
use vstd::prelude::*;

verus! {

/// What a browser that joins late needs to read the stream: what the
/// streamer told the room when the stream began.
#[derive(Clone, Copy, Debug, PartialEq, Eq)]
pub struct StreamState {
    pub capabilities: StreamCapabilities,
    pub format: u32,
    pub width: u32,
    pub height: u32,
    pub fps: u32,
    pub audio_sample_rate: u32,
    pub audio_channel_count: u32,
    pub audio_streams: u32,
    pub audio_coupled_streams: u32,
    pub audio_samples_per_frame: u32,
    pub audio_mapping: [u8; 8],
}

/// One participant of a room, player or spectator.
#[derive(Clone, Debug, PartialEq, Eq)]
pub struct RoomClient {
    pub peer_id: PeerId,
    /// The slot of a player; a spectator has none.
    pub player_slot: Option<PlayerSlot>,
    pub role: RoomRole,
    pub player_name: Option<String>,
    pub discord_user_id: Option<String>,
    pub discord_avatar: Option<String>,
    pub video_frame_queue_size: usize,
    pub audio_sample_queue_size: usize,
}

/// A copy of an optional text.
fn clone_text(text: &Option<String>) -> (r: Option<String>)
    ensures
        r == *text,
{
    match text {
        Some(text) => Some(text.clone()),
        None => None,
    }
}

impl RoomClient {
    /// Whether role and slot go together: the host sits in slot 0, and it is
    /// the spectators that have no slot.
    pub open spec fn role_matches_slot(self) -> bool {
        &&& self.role is Host ==> self.player_slot == Some(PlayerSlot(0))
        &&& self.role is Spectator <==> self.player_slot is None
    }

    /// The participant as a player, if it has a slot.
    pub open spec fn room_player(self) -> Option<RoomPlayer> {
        match self.player_slot {
            Some(slot) => Some(
                RoomPlayer { slot, name: self.player_name, is_host: self.role is Host },
            ),
            None => None,
        }
    }

    /// The participant as the browsers see it.
    pub open spec fn participant(self) -> RoomParticipant {
        RoomParticipant {
            slot: self.player_slot,
            role: self.role,
            name: self.player_name,
            discord_user_id: self.discord_user_id,
            discord_avatar: self.discord_avatar,
        }
    }

    /// Whether the participant is known under this Discord user.
    pub open spec fn is_discord_user(self, discord_user_id: Seq<char>) -> bool {
        self.discord_user_id matches Some(id) && id@ == discord_user_id
    }

    pub fn to_room_player(&self) -> (r: Option<RoomPlayer>)
        ensures
            r == self.room_player(),
    {
        match self.player_slot {
            Some(slot) => Some(
                RoomPlayer {
                    slot,
                    name: clone_text(&self.player_name),
                    is_host: self.role.is_host(),
                },
            ),
            None => None,
        }
    }

    pub fn to_participant(&self) -> (r: RoomParticipant)
        ensures
            r == self.participant(),
    {
        RoomParticipant {
            slot: self.player_slot,
            role: self.role,
            name: clone_text(&self.player_name),
            discord_user_id: clone_text(&self.discord_user_id),
            discord_avatar: clone_text(&self.discord_avatar),
        }
    }

    pub fn is_spectator(&self) -> (r: bool)
        ensures
            r == (self.role is Spectator),
    {
        self.role.is_spectator()
    }

    /// Whether the participant takes part in the game: the host and the
    /// players do.
    pub fn is_player(&self) -> (r: bool)
        ensures
            r == !(self.role is Spectator),
    {
        self.role.can_input()
    }
}

/// Whether some participant of `clients` sits in slot `slot`.
pub open spec fn holds_slot(clients: Seq<(PeerId, RoomClient)>, slot: int) -> bool {
    exists|i: int|
        0 <= i < clients.len() && (#[trigger] clients[i]).1.player_slot == Some(
            PlayerSlot(slot as u8),
        )
}

/// The players of `clients`, in their order: the participants with a slot.
pub open spec fn players_of(clients: Seq<(PeerId, RoomClient)>) -> Seq<RoomPlayer>
    decreases clients.len(),
{
    if clients.len() == 0 {
        Seq::empty()
    } else {
        let before = players_of(clients.drop_last());
        match clients.last().1.room_player() {
            Some(player) => before.push(player),
            None => before,
        }
    }
}

/// The participants of `clients` as the browsers see them, in their order.
pub open spec fn participants_of(clients: Seq<(PeerId, RoomClient)>) -> Seq<RoomParticipant> {
    Seq::new(clients.len(), |i: int| clients[i].1.participant())
}

/// How many of `clients` are spectators.
pub open spec fn count_spectators(clients: Seq<(PeerId, RoomClient)>) -> nat
    decreases clients.len(),
{
    if clients.len() == 0 {
        0
    } else {
        count_spectators(clients.drop_last()) + if clients.last().1.role is Spectator {
            1nat
        } else {
            0nat
        }
    }
}

/// How many of `clients` take part in the game: all but the spectators.
pub open spec fn count_players(clients: Seq<(PeerId, RoomClient)>) -> nat
    decreases clients.len(),
{
    if clients.len() == 0 {
        0
    } else {
        count_players(clients.drop_last()) + if clients.last().1.role is Spectator {
            0nat
        } else {
            1nat
        }
    }
}

/// The lowest slot that `occupied` shows as free, from slot `from` on.
pub open spec fn first_free_slot(occupied: Seq<bool>, from: int) -> Option<PlayerSlot>
    decreases occupied.len() - from,
{
    if from < 0 || from >= occupied.len() || from > 255 {
        None
    } else if !occupied[from] {
        Some(PlayerSlot(from as u8))
    } else {
        first_free_slot(occupied, from + 1)
    }
}

/// `occupied` after the slot of a participant that left was given up.
pub open spec fn freed(occupied: Seq<bool>, slot: Option<PlayerSlot>) -> Seq<bool> {
    match slot {
        Some(slot) => if slot.0 < occupied.len() {
            occupied.update(slot.0 as int, false)
        } else {
            occupied
        },
        None => occupied,
    }
}

/// A room as a mathematical value.
pub struct RoomView {
    pub room_id: String,
    pub host_id: u32,
    pub app_id: u32,
    pub app_name: String,
    pub max_players: u8,
    /// The participants, each under its peer, in the order in which they
    /// came.
    pub clients: Seq<(PeerId, RoomClient)>,
    /// For each slot, whether it is taken.
    pub occupied_slots: Seq<bool>,
    pub guests_keyboard_mouse_enabled: bool,
    /// Whether the room has a streamer to talk to.
    pub ipc_attached: bool,
    pub ice_servers: Option<Vec<RtcIceServer>>,
    pub stream_state: Option<StreamState>,
    /// The peers that the streamer was told of and that have not left since.
    pub announced: Seq<PeerId>,
    /// What the streamer was told of the coming and going of peers, in the
    /// order in which it was told.
    pub announcements: Seq<ServerIpcMessage>,
}

/// Whether `message` tells a streamer that `peer` has come.
pub open spec fn announces(message: ServerIpcMessage, peer: PeerId) -> bool {
    message matches ServerIpcMessage::PeerConnected { peer_id, .. } && peer_id == peer
}

/// Whether no peer is said to have left before it was said to have come.
pub open spec fn announcements_in_order(told: Seq<ServerIpcMessage>) -> bool {
    forall|i: int|
        0 <= i < told.len() ==> ((#[trigger] told[i]) matches ServerIpcMessage::PeerDisconnected {
            peer_id,
        } ==> exists|j: int| 0 <= j < i && announces(#[trigger] told[j], peer_id))
}

/// Whether a streamer that was told `announcements` was told of no peer
/// that it left before it was told that it came, and was told of the coming
/// of every peer of `announced`.
pub open spec fn told_consistently(
    announced: Seq<PeerId>,
    announcements: Seq<ServerIpcMessage>,
) -> bool {
    &&& announcements_in_order(announcements)
    &&& forall|k: int|
        0 <= k < announced.len() ==> exists|j: int|
            0 <= j < announcements.len() && announces(
                #[trigger] announcements[j],
                #[trigger] announced[k],
            )
}

/// The place of the first `peer` in `peers` from `from` on; the length of
/// `peers` if there is none.
pub open spec fn first_place(peers: Seq<PeerId>, peer: PeerId, from: int) -> int
    decreases peers.len() - from,
{
    if from < 0 || from >= peers.len() {
        peers.len() as int
    } else if peers[from] == peer {
        from
    } else {
        first_place(peers, peer, from + 1)
    }
}

impl RoomView {
    /// The shape of every room: a room has four slots, no peer is in it
    /// twice, each participant is kept under its own peer, and the streamer
    /// was told in order of the peers that came and went.
    pub open spec fn wf(self) -> bool {
        &&& self.occupied_slots.len() == 4
        &&& distinct_peers(self.clients)
        &&& forall|i: int|
            0 <= i < self.clients.len() ==> (#[trigger] self.clients[i]).0
                == self.clients[i].1.peer_id
        &&& self.link_consistent()
    }

    /// See `told_consistently`.
    pub open spec fn link_consistent(self) -> bool {
        told_consistently(self.announced, self.announcements)
    }

    /// The room after its streamer was told with `message` that a peer came.
    /// A room without a streamer tells nothing.
    pub open spec fn announcing(self, peer_id: PeerId, message: ServerIpcMessage) -> RoomView {
        if self.ipc_attached {
            RoomView {
                announced: self.announced.push(peer_id),
                announcements: self.announcements.push(message),
                ..self
            }
        } else {
            self
        }
    }

    /// Whether the streamer was told of `peer_id` and not yet that it left.
    pub open spec fn is_announced(self, peer_id: PeerId) -> bool {
        first_place(self.announced, peer_id, 0) < self.announced.len()
    }

    /// The room after its streamer was told that `peer_id` left. Nothing is
    /// told of a peer of which the streamer was not told before.
    pub open spec fn dismissing(self, peer_id: PeerId) -> RoomView {
        if self.is_announced(peer_id) {
            RoomView {
                announced: self.announced.remove(first_place(self.announced, peer_id, 0)),
                announcements: self.announcements.push(
                    ServerIpcMessage::PeerDisconnected { peer_id },
                ),
                ..self
            }
        } else {
            self
        }
    }

    /// A slot is taken exactly if a participant sits in it; no participant
    /// sits outside the four slots, and no two sit in the same.
    pub open spec fn slots_consistent(self) -> bool {
        &&& forall|slot: int|
            0 <= slot < 4 ==> (#[trigger] self.occupied_slots[slot] <==> holds_slot(
                self.clients,
                slot,
            ))
        &&& forall|i: int|
            0 <= i < self.clients.len() ==> ((#[trigger] self.clients[i]).1.player_slot matches Some(
                slot,
            ) ==> slot.0 < 4)
        &&& forall|i: int, j: int|
            0 <= i < self.clients.len() && 0 <= j < self.clients.len() && i != j && (
            #[trigger] self.clients[i]).1.player_slot is Some ==> self.clients[i].1.player_slot != (
            #[trigger] self.clients[j]).1.player_slot
    }

    /// Role and slot of every participant go together.
    pub open spec fn roles_consistent(self) -> bool {
        forall|i: int|
            0 <= i < self.clients.len() ==> (#[trigger] self.clients[i]).1.role_matches_slot()
    }

    /// Whether the room takes `client`: a participant with a slot is taken
    /// if the slot is one of the four and free, one without a slot always.
    pub open spec fn accepts(self, client: RoomClient) -> bool {
        match client.player_slot {
            Some(slot) => slot.0 < 4 && !self.occupied_slots[slot.0 as int],
            None => true,
        }
    }

    /// The room after it took `client`.
    pub open spec fn with_client(self, client: RoomClient) -> RoomView {
        RoomView {
            clients: with(self.clients, client.peer_id, client),
            occupied_slots: match client.player_slot {
                Some(slot) => self.occupied_slots.update(slot.0 as int, true),
                None => self.occupied_slots,
            },
            ..self
        }
    }

    /// The room after `peer_id` left it.
    pub open spec fn without_client(self, peer_id: PeerId) -> RoomView {
        match lookup(self.clients, peer_id) {
            Some(client) => RoomView {
                clients: without(self.clients, peer_id),
                occupied_slots: freed(self.occupied_slots, client.player_slot),
                ..self
            },
            None => self,
        }
    }

    /// The slot that a spectator `peer_id` gets when it becomes a player:
    /// the lowest free one, if there is one and `peer_id` is a spectator of
    /// the room.
    pub open spec fn promotion_slot(self, peer_id: PeerId) -> Option<PlayerSlot> {
        match (first_free_slot(self.occupied_slots, 0), lookup(self.clients, peer_id)) {
            (Some(slot), Some(client)) => if client.role is Spectator {
                Some(slot)
            } else {
                None
            },
            _ => None,
        }
    }

    /// The room after `peer_id` became a player, if it could: it sits in
    /// its new slot, and a slot that it held as a spectator is given up.
    pub open spec fn promoted(self, peer_id: PeerId) -> RoomView {
        match self.promotion_slot(peer_id) {
            Some(slot) => RoomView {
                clients: replaced(
                    self.clients,
                    peer_id,
                    RoomClient {
                        role: RoomRole::Player,
                        player_slot: Some(slot),
                        ..lookup(self.clients, peer_id)->0
                    },
                ),
                occupied_slots: freed(
                    self.occupied_slots,
                    lookup(self.clients, peer_id)->0.player_slot,
                ).update(slot.0 as int, true),
                ..self
            },
            None => self,
        }
    }

    /// Whether `peer_id` can become a spectator: every participant but the
    /// host can.
    pub open spec fn can_demote(self, peer_id: PeerId) -> bool {
        lookup(self.clients, peer_id) matches Some(client) && !(client.role is Host)
    }

    /// The room after `peer_id` became a spectator, if it could.
    pub open spec fn demoted(self, peer_id: PeerId) -> RoomView {
        if self.can_demote(peer_id) {
            let client = lookup(self.clients, peer_id)->0;
            RoomView {
                clients: replaced(
                    self.clients,
                    peer_id,
                    RoomClient { role: RoomRole::Spectator, player_slot: None, ..client },
                ),
                occupied_slots: freed(self.occupied_slots, client.player_slot),
                ..self
            }
        } else {
            self
        }
    }

    /// The room as the browsers see it.
    pub open spec fn info_matches(self, info: RoomInfo) -> bool {
        &&& info.room_id == self.room_id
        &&& info.host_id == self.host_id
        &&& info.app_id == self.app_id
        &&& info.app_name == self.app_name
        &&& info.players@ == players_of(self.clients)
        &&& info.max_players == self.max_players
        &&& info.participants@ == participants_of(self.clients)
        &&& info.spectator_count == count_spectators(self.clients)
    }

    /// The first participant, in the order in which they came, that is known
    /// under this Discord user.
    pub open spec fn discord_user(self, discord_user_id: Seq<char>) -> Option<PeerId> {
        if exists|i: int|
            0 <= i < self.clients.len() && (#[trigger] self.clients[i]).1.is_discord_user(
                discord_user_id,
            ) {
            let first = choose|i: int|
                0 <= i < self.clients.len() && (#[trigger] self.clients[i]).1.is_discord_user(
                    discord_user_id,
                ) && forall|j: int|
                    0 <= j < i ==> !(#[trigger] self.clients[j]).1.is_discord_user(discord_user_id);
            Some(self.clients[first].0)
        } else {
            None
        }
    }

    /// Whether the host is in the room.
    pub open spec fn has_host(self) -> bool {
        exists|i: int| 0 <= i < self.clients.len() && (#[trigger] self.clients[i]).1.role is Host
    }
}

/// A message for some participants of a room.
#[derive(Clone, Debug, PartialEq, Eq)]
pub struct Delivery {
    /// Who gets the message, in the order in which they came to the room.
    pub recipients: Vec<PeerId>,
    pub message: StreamServerMessage,
}

/// A room: one stream that is shared by a host, up to three more players
/// and any number of spectators.
pub struct Room {
    room_id: String,
    host_id: u32,
    app_id: u32,
    app_name: String,
    max_players: u8,
    clients: PeerTable<RoomClient>,
    ipc_attached: bool,
    occupied_slots: [bool; 4],
    guests_keyboard_mouse_enabled: bool,
    ice_servers: Option<Vec<RtcIceServer>>,
    stream_state: Option<StreamState>,
    announced: Vec<PeerId>,
    announcements: Ghost<Seq<ServerIpcMessage>>,
}

impl View for Room {
    type V = RoomView;

    closed spec fn view(&self) -> RoomView {
        RoomView {
            room_id: self.room_id,
            host_id: self.host_id,
            app_id: self.app_id,
            app_name: self.app_name,
            max_players: self.max_players,
            clients: self.clients@,
            occupied_slots: self.occupied_slots@,
            guests_keyboard_mouse_enabled: self.guests_keyboard_mouse_enabled,
            ipc_attached: self.ipc_attached,
            ice_servers: self.ice_servers,
            stream_state: self.stream_state,
            announced: self.announced@,
            announcements: self.announcements@,
        }
    }
}

impl Room {
    /// Whether the room has the shape of every room. Every room that `new`
    /// hands out has it, and the functions of the room keep it.
    pub open spec fn wf(&self) -> bool {
        self@.wf()
    }

    /// A room without participants, streamer and stream, in which the guests
    /// may not use keyboard and mouse.
    pub fn new(room_id: String, host_id: u32, app_id: u32, app_name: String) -> (r: Self)
        ensures
            r.wf(),
            r@.slots_consistent(),
            r@.roles_consistent(),
            r@ == (RoomView {
                room_id,
                host_id,
                app_id,
                app_name,
                max_players: 4,
                clients: Seq::empty(),
                occupied_slots: seq![false, false, false, false],
                guests_keyboard_mouse_enabled: false,
                ipc_attached: false,
                ice_servers: None,
                stream_state: None,
                announced: Seq::empty(),
                announcements: Seq::empty(),
            }),
    {
        let r = Room {
            room_id,
            host_id,
            app_id,
            app_name,
            max_players: 4,
            clients: PeerTable::new(),
            ipc_attached: false,
            occupied_slots: [false, false, false, false],
            guests_keyboard_mouse_enabled: false,
            ice_servers: None,
            stream_state: None,
            announced: Vec::new(),
            announcements: Ghost(Seq::empty()),
        };
        assert(r@.occupied_slots =~= seq![false, false, false, false]);
        r
    }

    pub fn room_id(&self) -> (r: &String)
        ensures
            *r == self@.room_id,
    {
        &self.room_id
    }

    pub fn host_id(&self) -> (r: u32)
        ensures
            r == self@.host_id,
    {
        self.host_id
    }

    pub fn app_id(&self) -> (r: u32)
        ensures
            r == self@.app_id,
    {
        self.app_id
    }

    pub fn app_name(&self) -> (r: &String)
        ensures
            *r == self@.app_name,
    {
        &self.app_name
    }

    pub fn guests_keyboard_mouse_enabled(&self) -> (r: bool)
        ensures
            r == self@.guests_keyboard_mouse_enabled,
    {
        self.guests_keyboard_mouse_enabled
    }

    /// Whether the room has a streamer to talk to.
    pub fn has_ipc_sender(&self) -> (r: bool)
        ensures
            r == self@.ipc_attached,
    {
        self.ipc_attached
    }

    /// Notes that the room has a streamer to talk to.
    pub fn attach_ipc_sender(&mut self)
        ensures
            final(self)@ == (RoomView { ipc_attached: true, ..old(self)@ }),
    {
        self.ipc_attached = true;
    }

    pub fn ice_servers(&self) -> (r: &Option<Vec<RtcIceServer>>)
        ensures
            *r == self@.ice_servers,
    {
        &self.ice_servers
    }

    pub fn stream_state(&self) -> (r: Option<StreamState>)
        ensures
            r == self@.stream_state,
    {
        self.stream_state
    }

    /// Tells the streamer of the room that a peer came, in the slot and role
    /// and with the queue sizes given. Hands back what the streamer is to be
    /// told; a room without a streamer tells nothing.
    pub fn announce_peer(
        &mut self,
        peer_id: PeerId,
        player_slot: Option<PlayerSlot>,
        role: RoomRole,
        video_frame_queue_size: usize,
        audio_sample_queue_size: usize,
    ) -> (r: Option<ServerIpcMessage>)
        requires
            old(self).wf(),
        ensures
            final(self).wf(),
            r == (if old(self)@.ipc_attached {
                Some(
                    ServerIpcMessage::PeerConnected {
                        peer_id,
                        player_slot,
                        role,
                        video_frame_queue_size,
                        audio_sample_queue_size,
                    },
                )
            } else {
                None
            }),
            final(self)@ == old(self)@.announcing(
                peer_id,
                ServerIpcMessage::PeerConnected {
                    peer_id,
                    player_slot,
                    role,
                    video_frame_queue_size,
                    audio_sample_queue_size,
                },
            ),
    {
        if !self.ipc_attached {
            return None;
        }
        let ghost message = ServerIpcMessage::PeerConnected {
            peer_id,
            player_slot,
            role,
            video_frame_queue_size,
            audio_sample_queue_size,
        };
        self.announced.push(peer_id);
        proof {
            self.announcements@ = self.announcements@.push(message);
            lemma_announcing(old(self)@, peer_id, message);
        }
        Some(
            ServerIpcMessage::PeerConnected {
                peer_id,
                player_slot,
                role,
                video_frame_queue_size,
                audio_sample_queue_size,
            },
        )
    }

    /// Whether the streamer of the room was told of a peer, and not yet that
    /// it left.
    pub fn is_announced(&self, peer_id: PeerId) -> (r: bool)
        ensures
            r == self@.is_announced(peer_id),
    {
        let mut i: usize = 0;
        while i < self.announced.len() && self.announced[i] != peer_id
            invariant
                i <= self.announced@.len(),
                first_place(self.announced@, peer_id, 0) == first_place(
                    self.announced@,
                    peer_id,
                    i as int,
                ),
            decreases self.announced.len() - i,
        {
            i += 1;
        }
        i < self.announced.len()
    }

    /// Tells the streamer of the room that a peer left. Hands back what the
    /// streamer is to be told: nothing, if it was not told before that the
    /// peer came.
    pub fn dismiss_peer(&mut self, peer_id: PeerId) -> (r: Option<ServerIpcMessage>)
        requires
            old(self).wf(),
        ensures
            final(self).wf(),
            r == (if old(self)@.is_announced(peer_id) {
                Some(ServerIpcMessage::PeerDisconnected { peer_id })
            } else {
                None
            }),
            final(self)@ == old(self)@.dismissing(peer_id),
    {
        let mut i: usize = 0;
        while i < self.announced.len() && self.announced[i] != peer_id
            invariant
                i <= self.announced@.len(),
                first_place(self.announced@, peer_id, 0) == first_place(
                    self.announced@,
                    peer_id,
                    i as int,
                ),
            decreases self.announced.len() - i,
        {
            i += 1;
        }
        if i >= self.announced.len() {
            return None;
        }
        let _ = self.announced.remove(i);
        proof {
            self.announcements@ = self.announcements@.push(
                ServerIpcMessage::PeerDisconnected { peer_id },
            );
            lemma_dismissing(old(self)@, peer_id);
        }
        Some(ServerIpcMessage::PeerDisconnected { peer_id })
    }

    /// Notes the servers that help the browsers to find a way to the
    /// streamer.
    pub fn set_ice_servers(&mut self, ice_servers: Vec<RtcIceServer>)
        ensures
            final(self)@ == (RoomView { ice_servers: Some(ice_servers), ..old(self)@ }),
    {
        self.ice_servers = Some(ice_servers);
    }

    /// Notes how the stream is to be read.
    pub fn set_stream_state(&mut self, stream_state: StreamState)
        ensures
            final(self)@ == (RoomView { stream_state: Some(stream_state), ..old(self)@ }),
    {
        self.stream_state = Some(stream_state);
    }

    /// Lets the guests use keyboard and mouse, or not. Hands back what the
    /// streamer is to be told, if the room has one.
    pub fn set_guests_keyboard_mouse_enabled(&mut self, enabled: bool) -> (r: Option<
        ServerIpcMessage,
    >)
        ensures
            final(self)@ == (RoomView { guests_keyboard_mouse_enabled: enabled, ..old(self)@ }),
            r == (if old(self)@.ipc_attached {
                Some(ServerIpcMessage::SetGuestsKeyboardMouseEnabled { enabled })
            } else {
                None
            }),
    {
        self.guests_keyboard_mouse_enabled = enabled;
        if self.ipc_attached {
            Some(ServerIpcMessage::SetGuestsKeyboardMouseEnabled { enabled })
        } else {
            None
        }
    }

    /// The room as the browsers see it.
    pub fn to_room_info(&self) -> (r: RoomInfo)
        ensures
            self@.info_matches(r),
    {
        let mut players: Vec<RoomPlayer> = Vec::new();
        let mut participants: Vec<RoomParticipant> = Vec::new();
        let mut i: usize = 0;
        while i < self.clients.len()
            invariant
                i <= self.clients@.len(),
                players@ == players_of(self.clients@.subrange(0, i as int)),
                participants@ == participants_of(self.clients@.subrange(0, i as int)),
            decreases self.clients@.len() - i,
        {
            let (_, client) = self.clients.entry(i);
            proof {
                let next = self.clients@.subrange(0, i + 1);
                assert(next.drop_last() == self.clients@.subrange(0, i as int));
                assert(next.last() == self.clients@[i as int]);
            }
            match client.to_room_player() {
                Some(player) => {
                    players.push(player);
                },
                None => {},
            }
            participants.push(client.to_participant());
            assert(participants@ =~= participants_of(self.clients@.subrange(0, i + 1)));
            i += 1;
        }
        assert(self.clients@.subrange(0, i as int) == self.clients@);
        RoomInfo {
            room_id: self.room_id.clone(),
            host_id: self.host_id,
            app_id: self.app_id,
            app_name: self.app_name.clone(),
            players,
            max_players: self.max_players,
            participants,
            spectator_count: self.spectator_count(),
        }
    }

    /// How many spectators the room has.
    pub fn spectator_count(&self) -> (r: usize)
        ensures
            r == count_spectators(self@.clients),
    {
        let mut count: usize = 0;
        let mut i: usize = 0;
        while i < self.clients.len()
            invariant
                i <= self.clients@.len(),
                count <= i,
                count == count_spectators(self.clients@.subrange(0, i as int)),
            decreases self.clients@.len() - i,
        {
            let (_, client) = self.clients.entry(i);
            proof {
                let next = self.clients@.subrange(0, i + 1);
                assert(next.drop_last() == self.clients@.subrange(0, i as int));
                assert(next.last() == self.clients@[i as int]);
            }
            if client.is_spectator() {
                count += 1;
            }
            i += 1;
        }
        assert(self.clients@.subrange(0, i as int) == self.clients@);
        count
    }

    /// How many participants take part in the game: all but the spectators.
    pub fn player_count(&self) -> (r: usize)
        ensures
            r == count_players(self@.clients),
    {
        let mut count: usize = 0;
        let mut i: usize = 0;
        while i < self.clients.len()
            invariant
                i <= self.clients@.len(),
                count <= i,
                count == count_players(self.clients@.subrange(0, i as int)),
            decreases self.clients@.len() - i,
        {
            let (_, client) = self.clients.entry(i);
            proof {
                let next = self.clients@.subrange(0, i + 1);
                assert(next.drop_last() == self.clients@.subrange(0, i as int));
                assert(next.last() == self.clients@[i as int]);
            }
            if client.is_player() {
                count += 1;
            }
            i += 1;
        }
        assert(self.clients@.subrange(0, i as int) == self.clients@);
        count
    }

    /// The lowest slot that is free.
    pub fn next_available_slot(&self) -> (r: Option<PlayerSlot>)
        requires
            self.wf(),
        ensures
            r == first_free_slot(self@.occupied_slots, 0),
            r matches Some(slot) ==> slot.0 < 4 && !self@.occupied_slots[slot.0 as int],
    {
        let mut i: u8 = 0;
        while i < 4
            invariant
                i <= 4,
                self@.occupied_slots.len() == 4,
                first_free_slot(self@.occupied_slots, 0) == first_free_slot(
                    self@.occupied_slots,
                    i as int,
                ),
            decreases 4 - i,
        {
            if !self.occupied_slots[i as usize] {
                return Some(PlayerSlot(i));
            }
            i += 1;
        }
        None
    }

    /// Takes a participant into the room. A participant with a slot is
    /// taken if the slot is one of the four and free; one without a slot is
    /// always taken. Says whether the participant was taken.
    ///
    /// The participant takes the place of one that was in the room under the
    /// same peer.
    pub fn add_client(&mut self, client: RoomClient) -> (r: bool)
        requires
            old(self).wf(),
        ensures
            final(self).wf(),
            r == old(self)@.accepts(client),
            r ==> final(self)@ == old(self)@.with_client(client),
            !r ==> final(self)@ == old(self)@,
            old(self)@.slots_consistent() && !has_peer(old(self)@.clients, client.peer_id)
                ==> final(self)@.slots_consistent(),
            old(self)@.roles_consistent() && client.role_matches_slot()
                ==> final(self)@.roles_consistent(),
    {
        match client.player_slot {
            Some(slot) => {
                let slot_idx = slot.0 as usize;
                if slot_idx >= PlayerSlot::MAX_PLAYERS || self.occupied_slots[slot_idx] {
                    return false;
                }
                self.occupied_slots[slot_idx] = true;
            },
            None => {},
        }
        proof {
            lemma_with(old(self)@.clients, client.peer_id, client);
            lemma_with_client_wf(old(self)@, client);
            if old(self)@.roles_consistent() && client.role_matches_slot() {
                lemma_with_client_roles(old(self)@, client);
            }
            if old(self)@.slots_consistent() && !has_peer(old(self)@.clients, client.peer_id) {
                lemma_with_client_slots(old(self)@, client);
            }
        }
        self.clients.insert(client.peer_id, client);
        true
    }

    /// Takes a spectator into the room: a participant without a slot whose
    /// role is that of a spectator. Says whether the participant was taken.
    pub fn add_spectator(&mut self, client: RoomClient) -> (r: bool)
        requires
            old(self).wf(),
        ensures
            final(self).wf(),
            r == (client.player_slot is None && client.role is Spectator),
            r ==> final(self)@ == old(self)@.with_client(client),
            !r ==> final(self)@ == old(self)@,
            old(self)@.slots_consistent() && !has_peer(old(self)@.clients, client.peer_id)
                ==> final(self)@.slots_consistent(),
            old(self)@.roles_consistent() ==> final(self)@.roles_consistent(),
    {
        if client.player_slot.is_some() || !client.is_spectator() {
            return false;
        }
        proof {
            lemma_with(old(self)@.clients, client.peer_id, client);
            lemma_with_client_wf(old(self)@, client);
            if old(self)@.roles_consistent() && client.role_matches_slot() {
                lemma_with_client_roles(old(self)@, client);
            }
            if old(self)@.slots_consistent() && !has_peer(old(self)@.clients, client.peer_id) {
                lemma_with_client_slots(old(self)@, client);
            }
        }
        self.clients.insert(client.peer_id, client);
        true
    }

    /// Takes a participant out of the room and gives its slot up. Hands back
    /// the participant, if it was in the room.
    pub fn remove_client(&mut self, peer_id: PeerId) -> (r: Option<RoomClient>)
        requires
            old(self).wf(),
        ensures
            final(self).wf(),
            r == lookup(old(self)@.clients, peer_id),
            final(self)@ == old(self)@.without_client(peer_id),
            old(self)@.slots_consistent() ==> final(self)@.slots_consistent(),
            old(self)@.roles_consistent() ==> final(self)@.roles_consistent(),
    {
        proof {
            lemma_without(old(self)@.clients, peer_id);
            lemma_without_client_wf(old(self)@, peer_id);
            if old(self)@.slots_consistent() {
                lemma_without_client_slots(old(self)@, peer_id);
            }
        }
        match self.clients.remove(peer_id) {
            Some(client) => {
                match client.player_slot {
                    Some(slot) => {
                        let slot_idx = slot.0 as usize;
                        if slot_idx < PlayerSlot::MAX_PLAYERS {
                            self.occupied_slots[slot_idx] = false;
                        }
                    },
                    None => {},
                }
                Some(client)
            },
            None => None,
        }
    }

    /// Makes a spectator a player in the lowest free slot. Hands back the
    /// slot; `None` if no slot is free, if the peer is not in the room, or if
    /// it is no spectator. Then nothing changes.
    ///
    /// A spectator has no slot. Should one have been taken in with a slot,
    /// it gives that slot up for the new one.
    pub fn promote_to_player(&mut self, peer_id: PeerId) -> (r: Option<PlayerSlot>)
        requires
            old(self).wf(),
        ensures
            final(self).wf(),
            r == old(self)@.promotion_slot(peer_id),
            final(self)@ == old(self)@.promoted(peer_id),
            old(self)@.slots_consistent() ==> final(self)@.slots_consistent(),
            old(self)@.roles_consistent() ==> final(self)@.roles_consistent(),
    {
        let slot = match self.next_available_slot() {
            Some(slot) => slot,
            None => {
                return None;
            },
        };
        let (promoted, held) = match self.clients.get(peer_id) {
            Some(client) => {
                if !client.is_spectator() {
                    return None;
                }
                (
                    RoomClient {
                        role: RoomRole::Player,
                        player_slot: Some(slot),
                        peer_id: client.peer_id,
                        player_name: clone_text(&client.player_name),
                        discord_user_id: clone_text(&client.discord_user_id),
                        discord_avatar: clone_text(&client.discord_avatar),
                        video_frame_queue_size: client.video_frame_queue_size,
                        audio_sample_queue_size: client.audio_sample_queue_size,
                    },
                    client.player_slot,
                )
            },
            None => {
                return None;
            },
        };
        proof {
            lemma_replaced(old(self)@.clients, peer_id, promoted);
            lemma_promoted_wf(old(self)@, peer_id);
            if old(self)@.slots_consistent() {
                lemma_promoted_slots(old(self)@, peer_id);
            }
        }
        let _ = self.clients.replace(peer_id, promoted);
        match held {
            Some(held) => {
                let held_idx = held.0 as usize;
                if held_idx < PlayerSlot::MAX_PLAYERS {
                    self.occupied_slots[held_idx] = false;
                }
            },
            None => {},
        }
        self.occupied_slots[slot.0 as usize] = true;
        Some(slot)
    }

    /// Makes a participant a spectator and gives its slot up. The host stays
    /// what it is. Says whether the participant is a spectator now: whether
    /// it is in the room and not the host.
    pub fn demote_to_spectator(&mut self, peer_id: PeerId) -> (r: bool)
        requires
            old(self).wf(),
        ensures
            final(self).wf(),
            r == old(self)@.can_demote(peer_id),
            final(self)@ == old(self)@.demoted(peer_id),
            old(self)@.slots_consistent() ==> final(self)@.slots_consistent(),
            old(self)@.roles_consistent() ==> final(self)@.roles_consistent(),
    {
        let (demoted, slot) = match self.clients.get(peer_id) {
            Some(client) => {
                if client.role.is_host() {
                    return false;
                }
                (
                    RoomClient {
                        role: RoomRole::Spectator,
                        player_slot: None,
                        peer_id: client.peer_id,
                        player_name: clone_text(&client.player_name),
                        discord_user_id: clone_text(&client.discord_user_id),
                        discord_avatar: clone_text(&client.discord_avatar),
                        video_frame_queue_size: client.video_frame_queue_size,
                        audio_sample_queue_size: client.audio_sample_queue_size,
                    },
                    client.player_slot,
                )
            },
            None => {
                return false;
            },
        };
        proof {
            lemma_replaced(old(self)@.clients, peer_id, demoted);
            lemma_demoted_wf(old(self)@, peer_id);
            if old(self)@.slots_consistent() {
                lemma_demoted_slots(old(self)@, peer_id);
            }
        }
        let _ = self.clients.replace(peer_id, demoted);
        match slot {
            Some(slot) => {
                let slot_idx = slot.0 as usize;
                if slot_idx < PlayerSlot::MAX_PLAYERS {
                    self.occupied_slots[slot_idx] = false;
                }
            },
            None => {},
        }
        true
    }

    /// The first participant, in the order in which they came, that is known
    /// under this Discord user.
    pub fn find_by_discord_id(&self, discord_user_id: &str) -> (r: Option<PeerId>)
        ensures
            r == self@.discord_user(discord_user_id@),
    {
        let wanted = discord_user_id.to_owned();
        let mut i: usize = 0;
        while i < self.clients.len()
            invariant
                i <= self.clients@.len(),
                wanted@ == discord_user_id@,
                forall|j: int|
                    0 <= j < i ==> !(#[trigger] self.clients@[j]).1.is_discord_user(
                        discord_user_id@,
                    ),
            decreases self.clients@.len() - i,
        {
            let (peer_id, client) = self.clients.entry(i);
            let found = match &client.discord_user_id {
                Some(id) => *id == wanted,
                None => false,
            };
            if found {
                proof {
                    let first = choose|k: int|
                        0 <= k < self@.clients.len() && (#[trigger] self@.clients[k]).1.is_discord_user(
                            discord_user_id@,
                        ) && forall|j: int|
                            0 <= j < k ==> !(#[trigger] self@.clients[j]).1.is_discord_user(
                                discord_user_id@,
                            );
                    assert(self@.clients[i as int].1.is_discord_user(discord_user_id@));
                    assert(first == i);
                }
                return Some(peer_id);
            }
            i += 1;
        }
        None
    }

    pub fn is_empty(&self) -> (r: bool)
        ensures
            r == (self@.clients.len() == 0),
    {
        self.clients.is_empty()
    }

    /// Whether the host is in the room.
    pub fn has_host(&self) -> (r: bool)
        ensures
            r == self@.has_host(),
    {
        let mut i: usize = 0;
        while i < self.clients.len()
            invariant
                i <= self.clients@.len(),
                forall|j: int| 0 <= j < i ==> !((#[trigger] self.clients@[j]).1.role is Host),
            decreases self.clients@.len() - i,
        {
            let (_, client) = self.clients.entry(i);
            if client.role.is_host() {
                return true;
            }
            i += 1;
        }
        false
    }

    pub fn get_client(&self, peer_id: PeerId) -> (r: Option<&RoomClient>)
        requires
            self.wf(),
        ensures
            r == (match lookup(self@.clients, peer_id) {
                Some(client) => Some(&client),
                None => None,
            }),
    {
        self.clients.get(peer_id)
    }

    /// The peers of the room, in the order in which they came.
    pub fn peer_ids(&self) -> (r: Vec<PeerId>)
        ensures
            r@ == peers_of(self@.clients),
    {
        self.clients.peers()
    }

    /// A message for every participant of the room.
    pub fn broadcast(&self, message: StreamServerMessage) -> (r: Delivery)
        ensures
            r.recipients@ == peers_of(self@.clients),
            r.message == message,
    {
        Delivery { recipients: self.clients.peers(), message }
    }

    /// A message for one participant of the room. There is none for a peer
    /// that is not in the room.
    pub fn send_to_peer(&self, peer_id: PeerId, message: StreamServerMessage) -> (r: Option<
        Delivery,
    >)
        requires
            self.wf(),
        ensures
            has_peer(self@.clients, peer_id) ==> (r matches Some(delivery) && delivery.recipients@
                == seq![peer_id] && delivery.message == message),
            !has_peer(self@.clients, peer_id) ==> r is None,
    {
        if self.clients.contains(peer_id) {
            let mut recipients: Vec<PeerId> = Vec::new();
            recipients.push(peer_id);
            Some(Delivery { recipients, message })
        } else {
            None
        }
    }
}

/// Taking a participant in keeps the shape of the room.
pub proof fn lemma_with_client_wf(v: RoomView, client: RoomClient)
    requires
        v.wf(),
        v.accepts(client),
    ensures
        v.with_client(client).wf(),
{
    let n = v.with_client(client);
    lemma_with(v.clients, client.peer_id, client);
    lemma_without(v.clients, client.peer_id);
    let w = without(v.clients, client.peer_id);
    assert(n.clients == w.push((client.peer_id, client)));
    if has_peer(v.clients, client.peer_id) {
        let k = index_of(v.clients, client.peer_id);
        assert forall|i: int| 0 <= i < w.len() implies (#[trigger] w[i]).0 == w[i].1.peer_id by {
            assert(w[i] == v.clients[if i < k {
                i
            } else {
                i + 1
            }]);
        }
    }
    assert forall|i: int| 0 <= i < n.clients.len() implies (#[trigger] n.clients[i]).0
        == n.clients[i].1.peer_id by {
        if i < w.len() {
            assert(n.clients[i] == w[i]);
        }
    }
}

/// Taking in a participant whose role and slot go together keeps roles and
/// slots of all together.
pub proof fn lemma_with_client_roles(v: RoomView, client: RoomClient)
    requires
        v.wf(),
        v.roles_consistent(),
        client.role_matches_slot(),
    ensures
        v.with_client(client).roles_consistent(),
{
    let n = v.with_client(client);
    let w = without(v.clients, client.peer_id);
    assert(n.clients == w.push((client.peer_id, client)));
    assert forall|i: int| 0 <= i < w.len() implies (#[trigger] w[i]).1.role_matches_slot() by {
        if has_peer(v.clients, client.peer_id) {
            let k = index_of(v.clients, client.peer_id);
            assert(w[i] == v.clients[if i < k {
                i
            } else {
                i + 1
            }]);
        }
    }
    assert forall|i: int| 0 <= i < n.clients.len() implies (
    #[trigger] n.clients[i]).1.role_matches_slot() by {
        if i < w.len() {
            assert(n.clients[i] == w[i]);
        }
    }
}

/// Taking in a participant that is new to the room keeps the slots in
/// order.
pub proof fn lemma_with_client_slots(v: RoomView, client: RoomClient)
    requires
        v.wf(),
        v.accepts(client),
        v.slots_consistent(),
        !has_peer(v.clients, client.peer_id),
    ensures
        v.with_client(client).slots_consistent(),
{
    let n = v.with_client(client);
    let last = v.clients.len() as int;
    assert(n.clients == v.clients.push((client.peer_id, client)));
    assert forall|i: int| 0 <= i < last implies #[trigger] n.clients[i] == v.clients[i] by {}
    assert(n.clients[last].1 == client);
    assert forall|slot: int| 0 <= slot < 4 implies (#[trigger] n.occupied_slots[slot] <==> holds_slot(
        n.clients,
        slot,
    )) by {
        let wanted = Some(PlayerSlot(slot as u8));
        if holds_slot(v.clients, slot) {
            let i = choose|i: int|
                0 <= i < v.clients.len() && (#[trigger] v.clients[i]).1.player_slot == wanted;
            assert(n.clients[i].1.player_slot == wanted);
        }
        if client.player_slot == wanted {
            assert(n.clients[last].1.player_slot == wanted);
        }
        if holds_slot(n.clients, slot) {
            let i = choose|i: int|
                0 <= i < n.clients.len() && (#[trigger] n.clients[i]).1.player_slot == wanted;
            if i < last {
                assert(v.clients[i].1.player_slot == wanted);
            }
        }
    }
    assert forall|i: int| 0 <= i < n.clients.len() implies ((
    #[trigger] n.clients[i]).1.player_slot matches Some(slot) ==> slot.0 < 4) by {
        if i < last {
            assert(n.clients[i] == v.clients[i]);
        }
    }
    assert forall|i: int, j: int|
        0 <= i < n.clients.len() && 0 <= j < n.clients.len() && i != j && (
        #[trigger] n.clients[i]).1.player_slot is Some implies n.clients[i].1.player_slot != (
        #[trigger] n.clients[j]).1.player_slot by {
        if i < last && j < last {
            assert(n.clients[i] == v.clients[i]);
            assert(n.clients[j] == v.clients[j]);
        } else if i < last {
            assert(n.clients[i] == v.clients[i]);
            lemma_slot_taken(v, i);
        } else {
            assert(n.clients[j] == v.clients[j]);
            if v.clients[j].1.player_slot is Some {
                lemma_slot_taken(v, j);
            }
        }
    }
}

/// The slot of a participant is taken.
pub proof fn lemma_slot_taken(v: RoomView, i: int)
    requires
        v.slots_consistent(),
        0 <= i < v.clients.len(),
        v.clients[i].1.player_slot is Some,
    ensures
        v.clients[i].1.player_slot matches Some(slot) && slot.in_range()
            && v.occupied_slots[slot.0 as int],
{
    let slot = v.clients[i].1.player_slot->0;
    assert(slot.0 < 4);
    assert(v.clients[i].1.player_slot == Some(PlayerSlot(slot.0 as int as u8)));
    assert(holds_slot(v.clients, slot.0 as int));
}

/// Taking a participant out keeps the shape of the room.
pub proof fn lemma_without_client_wf(v: RoomView, peer_id: PeerId)
    requires
        v.wf(),
    ensures
        v.without_client(peer_id).wf(),
        v.roles_consistent() ==> v.without_client(peer_id).roles_consistent(),
{
    let n = v.without_client(peer_id);
    lemma_without(v.clients, peer_id);
    if has_peer(v.clients, peer_id) {
        let k = index_of(v.clients, peer_id);
        assert(n.clients == v.clients.remove(k));
        assert forall|i: int| 0 <= i < n.clients.len() implies (#[trigger] n.clients[i])
            == v.clients[if i < k {
            i
        } else {
            i + 1
        }] by {}
    }
}

/// Taking a participant out keeps the slots in order.
pub proof fn lemma_without_client_slots(v: RoomView, peer_id: PeerId)
    requires
        v.wf(),
        v.slots_consistent(),
    ensures
        v.without_client(peer_id).slots_consistent(),
{
    let n = v.without_client(peer_id);
    if has_peer(v.clients, peer_id) {
        let k = index_of(v.clients, peer_id);
        assert(n.clients == v.clients.remove(k));
        assert(n.occupied_slots == freed(v.occupied_slots, v.clients[k].1.player_slot));
        lemma_removed_slot_map(v, n, k);
        lemma_removed_slots_distinct(v, n, k);
    }
}

/// After the participant at place `k` left and gave its slot up, a slot is
/// taken exactly if a participant sits in it.
proof fn lemma_removed_slot_map(v: RoomView, n: RoomView, k: int)
    requires
        v.wf(),
        v.slots_consistent(),
        0 <= k < v.clients.len(),
        n.clients == v.clients.remove(k),
        n.occupied_slots == freed(v.occupied_slots, v.clients[k].1.player_slot),
    ensures
        forall|s: int|
            0 <= s < 4 ==> (#[trigger] n.occupied_slots[s] <==> holds_slot(n.clients, s)),
{
    let gone = v.clients[k].1;
    if gone.player_slot is Some {
        lemma_slot_taken(v, k);
    }
    assert forall|s: int| 0 <= s < 4 implies (#[trigger] n.occupied_slots[s] <==> holds_slot(
        n.clients,
        s,
    )) by {
        let wanted = Some(PlayerSlot(s as u8));
        if holds_slot(n.clients, s) {
            let i = choose|i: int|
                0 <= i < n.clients.len() && (#[trigger] n.clients[i]).1.player_slot == wanted;
            let j = if i < k {
                i
            } else {
                i + 1
            };
            assert(n.clients[i] == v.clients[j]);
            assert(v.clients[j].1.player_slot == wanted);
            assert(v.clients[j].1.player_slot != v.clients[k].1.player_slot);
        }
        if holds_slot(v.clients, s) && gone.player_slot != wanted {
            let j = choose|j: int|
                0 <= j < v.clients.len() && (#[trigger] v.clients[j]).1.player_slot == wanted;
            let i = if j < k {
                j
            } else {
                j - 1
            };
            assert(n.clients[i] == v.clients[j]);
            assert(n.clients[i].1.player_slot == wanted);
        }
    }
}

/// After the participant at place `k` left, those who stay sit in the four
/// slots, no two of them in the same.
proof fn lemma_removed_slots_distinct(v: RoomView, n: RoomView, k: int)
    requires
        v.slots_consistent(),
        0 <= k < v.clients.len(),
        n.clients == v.clients.remove(k),
    ensures
        forall|i: int|
            0 <= i < n.clients.len() ==> ((#[trigger] n.clients[i]).1.player_slot matches Some(
                slot,
            ) ==> slot.0 < 4),
        forall|i: int, j: int|
            0 <= i < n.clients.len() && 0 <= j < n.clients.len() && i != j && (
            #[trigger] n.clients[i]).1.player_slot is Some ==> n.clients[i].1.player_slot != (
            #[trigger] n.clients[j]).1.player_slot,
{
    assert forall|i: int| 0 <= i < n.clients.len() implies (#[trigger] n.clients[i])
        == v.clients[if i < k {
        i
    } else {
        i + 1
    }] by {}
    assert forall|i: int, j: int|
        0 <= i < n.clients.len() && 0 <= j < n.clients.len() && i != j && (
        #[trigger] n.clients[i]).1.player_slot is Some implies n.clients[i].1.player_slot != (
        #[trigger] n.clients[j]).1.player_slot by {
        let a = if i < k {
            i
        } else {
            i + 1
        };
        let b = if j < k {
            j
        } else {
            j + 1
        };
        assert(n.clients[i] == v.clients[a]);
        assert(n.clients[j] == v.clients[b]);
    }
}

/// The slot that is found free is one of the slots, is free, and is the
/// lowest such.
pub proof fn lemma_first_free_slot(occupied: Seq<bool>, from: int)
    requires
        0 <= from,
        occupied.len() <= 256,
    ensures
        first_free_slot(occupied, from) matches Some(slot) ==> from <= slot.0 < occupied.len()
            && !occupied[slot.0 as int] && forall|i: int| from <= i < slot.0 ==> occupied[i],
        first_free_slot(occupied, from) is None ==> forall|i: int|
            from <= i < occupied.len() ==> occupied[i],
    decreases occupied.len() - from,
{
    if from < occupied.len() && occupied[from] {
        lemma_first_free_slot(occupied, from + 1);
    }
}

/// Making a spectator a player keeps the shape of the room, and roles and
/// slots together.
pub proof fn lemma_promoted_wf(v: RoomView, peer_id: PeerId)
    requires
        v.wf(),
    ensures
        v.promoted(peer_id).wf(),
        v.roles_consistent() ==> v.promoted(peer_id).roles_consistent(),
{
    let n = v.promoted(peer_id);
    lemma_first_free_slot(v.occupied_slots, 0);
    if v.promotion_slot(peer_id) is Some {
        let slot = v.promotion_slot(peer_id)->0;
        assert(has_peer(v.clients, peer_id));
        let k = index_of(v.clients, peer_id);
        let before = v.clients[k].1;
        let after = RoomClient { role: RoomRole::Player, player_slot: Some(slot), ..before };
        lemma_replaced(v.clients, peer_id, after);
        assert(n.clients == v.clients.update(k, (peer_id, after)));
        assert forall|i: int| 0 <= i < n.clients.len() implies (#[trigger] n.clients[i]).0
            == n.clients[i].1.peer_id by {
            if i != k {
                assert(n.clients[i] == v.clients[i]);
            }
        }
        if v.roles_consistent() {
            assert forall|i: int| 0 <= i < n.clients.len() implies (
            #[trigger] n.clients[i]).1.role_matches_slot() by {
                if i != k {
                    assert(n.clients[i] == v.clients[i]);
                }
            }
        }
    }
}

/// Making a spectator a player keeps the slots in order.
pub proof fn lemma_promoted_slots(v: RoomView, peer_id: PeerId)
    requires
        v.wf(),
        v.slots_consistent(),
    ensures
        v.promoted(peer_id).slots_consistent(),
{
    let n = v.promoted(peer_id);
    lemma_first_free_slot(v.occupied_slots, 0);
    if v.promotion_slot(peer_id) is Some {
        let slot = v.promotion_slot(peer_id)->0;
        assert(has_peer(v.clients, peer_id));
        let k = index_of(v.clients, peer_id);
        let before = v.clients[k].1;
        let after = RoomClient { role: RoomRole::Player, player_slot: Some(slot), ..before };
        assert(n.clients == v.clients.update(k, (peer_id, after)));
        assert forall|i: int| 0 <= i < n.clients.len() && i != k implies #[trigger] n.clients[i]
            == v.clients[i] by {}
        assert(n.clients[k].1.player_slot == Some(slot));
        if before.player_slot is Some {
            lemma_slot_taken(v, k);
        }
        lemma_promoted_slot_map(v, n, k, slot);
        assert forall|i: int| 0 <= i < n.clients.len() implies ((
        #[trigger] n.clients[i]).1.player_slot matches Some(s) ==> s.0 < 4) by {
            if i != k {
                assert(n.clients[i] == v.clients[i]);
            }
        }
        assert forall|i: int, j: int|
            0 <= i < n.clients.len() && 0 <= j < n.clients.len() && i != j && (
            #[trigger] n.clients[i]).1.player_slot is Some implies n.clients[i].1.player_slot != (
            #[trigger] n.clients[j]).1.player_slot by {
            if i != k && j != k {
                assert(n.clients[i] == v.clients[i]);
                assert(n.clients[j] == v.clients[j]);
            } else if i == k {
                assert(n.clients[j] == v.clients[j]);
                if v.clients[j].1.player_slot is Some {
                    lemma_slot_taken(v, j);
                }
            } else {
                assert(n.clients[i] == v.clients[i]);
                lemma_slot_taken(v, i);
            }
        }
    }
}

/// After the participant at place `k` moved to the free slot `slot`, a slot
/// is taken exactly if a participant sits in it.
proof fn lemma_promoted_slot_map(v: RoomView, n: RoomView, k: int, slot: PlayerSlot)
    requires
        v.wf(),
        v.slots_consistent(),
        0 <= k < v.clients.len(),
        slot.0 < 4,
        !v.occupied_slots[slot.0 as int],
        n.clients.len() == v.clients.len(),
        forall|i: int| 0 <= i < n.clients.len() && i != k ==> #[trigger] n.clients[i] == v.clients[i],
        n.clients[k].1.player_slot == Some(slot),
        n.occupied_slots == freed(v.occupied_slots, v.clients[k].1.player_slot).update(
            slot.0 as int,
            true,
        ),
    ensures
        forall|s: int|
            0 <= s < 4 ==> (#[trigger] n.occupied_slots[s] <==> holds_slot(n.clients, s)),
{
    let held = v.clients[k].1.player_slot;
    if held is Some {
        lemma_slot_taken(v, k);
    }
    assert forall|s: int| 0 <= s < 4 implies (#[trigger] n.occupied_slots[s] <==> holds_slot(
        n.clients,
        s,
    )) by {
        let wanted = Some(PlayerSlot(s as u8));
        if s == slot.0 {
            assert(n.clients[k].1.player_slot == wanted);
        } else {
            if holds_slot(v.clients, s) && held != wanted {
                let i = choose|i: int|
                    0 <= i < v.clients.len() && (#[trigger] v.clients[i]).1.player_slot == wanted;
                assert(i != k);
                assert(n.clients[i].1.player_slot == wanted);
            }
            if holds_slot(n.clients, s) {
                let i = choose|i: int|
                    0 <= i < n.clients.len() && (#[trigger] n.clients[i]).1.player_slot == wanted;
                assert(i != k);
                assert(v.clients[i].1.player_slot == wanted);
                assert(v.clients[i].1.player_slot != v.clients[k].1.player_slot);
            }
        }
    }
}

/// Making a participant a spectator keeps the shape of the room, and roles
/// and slots together.
pub proof fn lemma_demoted_wf(v: RoomView, peer_id: PeerId)
    requires
        v.wf(),
    ensures
        v.demoted(peer_id).wf(),
        v.roles_consistent() ==> v.demoted(peer_id).roles_consistent(),
{
    let n = v.demoted(peer_id);
    if v.can_demote(peer_id) {
        let k = index_of(v.clients, peer_id);
        let before = v.clients[k].1;
        let after = RoomClient { role: RoomRole::Spectator, player_slot: None, ..before };
        lemma_replaced(v.clients, peer_id, after);
        assert(n.clients == v.clients.update(k, (peer_id, after)));
        assert forall|i: int| 0 <= i < n.clients.len() implies (#[trigger] n.clients[i]).0
            == n.clients[i].1.peer_id by {
            if i != k {
                assert(n.clients[i] == v.clients[i]);
            }
        }
        if v.roles_consistent() {
            assert forall|i: int| 0 <= i < n.clients.len() implies (
            #[trigger] n.clients[i]).1.role_matches_slot() by {
                if i != k {
                    assert(n.clients[i] == v.clients[i]);
                }
            }
        }
    }
}

/// Making a participant a spectator keeps the slots in order.
pub proof fn lemma_demoted_slots(v: RoomView, peer_id: PeerId)
    requires
        v.wf(),
        v.slots_consistent(),
    ensures
        v.demoted(peer_id).slots_consistent(),
{
    let n = v.demoted(peer_id);
    if v.can_demote(peer_id) {
        let k = index_of(v.clients, peer_id);
        let before = v.clients[k].1;
        let after = RoomClient { role: RoomRole::Spectator, player_slot: None, ..before };
        assert(n.clients == v.clients.update(k, (peer_id, after)));
        assert forall|i: int| 0 <= i < n.clients.len() && i != k implies #[trigger] n.clients[i]
            == v.clients[i] by {}
        assert(n.clients[k].1.player_slot is None);
        if before.player_slot is Some {
            lemma_slot_taken(v, k);
        }
        assert forall|s: int| 0 <= s < 4 implies (#[trigger] n.occupied_slots[s] <==> holds_slot(
            n.clients,
            s,
        )) by {
            let wanted = Some(PlayerSlot(s as u8));
            if holds_slot(v.clients, s) && before.player_slot != wanted {
                let i = choose|i: int|
                    0 <= i < v.clients.len() && (#[trigger] v.clients[i]).1.player_slot == wanted;
                assert(n.clients[i].1.player_slot == wanted);
            }
            if holds_slot(n.clients, s) {
                let i = choose|i: int|
                    0 <= i < n.clients.len() && (#[trigger] n.clients[i]).1.player_slot == wanted;
                assert(v.clients[i].1.player_slot == wanted);
                assert(v.clients[i].1.player_slot != v.clients[k].1.player_slot);
            }
        }
        assert forall|i: int| 0 <= i < n.clients.len() implies ((
        #[trigger] n.clients[i]).1.player_slot matches Some(s) ==> s.0 < 4) by {
            if i != k {
                assert(n.clients[i] == v.clients[i]);
            }
        }
        assert forall|i: int, j: int|
            0 <= i < n.clients.len() && 0 <= j < n.clients.len() && i != j && (
            #[trigger] n.clients[i]).1.player_slot is Some implies n.clients[i].1.player_slot != (
            #[trigger] n.clients[j]).1.player_slot by {
            assert(n.clients[i] == v.clients[i]);
            if j != k {
                assert(n.clients[j] == v.clients[j]);
            }
        }
    }
}

/// A slot is taken exactly if a participant sits in it.
pub proof fn lemma_slot_occupancy(v: RoomView, slot: int)
    requires
        v.slots_consistent(),
        0 <= slot < 4,
    ensures
        v.occupied_slots[slot] <==> exists|i: int|
            0 <= i < v.clients.len() && (#[trigger] v.clients[i]).1.player_slot == Some(
                PlayerSlot(slot as u8),
            ),
{
}

/// A room has at most one host, and the host sits in slot 0.
pub proof fn lemma_single_host(v: RoomView, i: int, j: int)
    requires
        v.slots_consistent(),
        v.roles_consistent(),
        0 <= i < v.clients.len(),
        0 <= j < v.clients.len(),
        v.clients[i].1.role is Host,
        v.clients[j].1.role is Host,
    ensures
        i == j,
        v.clients[i].1.player_slot == Some(PlayerSlot(0)),
{
}

/// The slots in which the players of `clients` sit.
pub open spec fn player_slots(clients: Seq<(PeerId, RoomClient)>) -> Set<u8> {
    Set::new(
        |slot: u8|
            exists|i: int|
                0 <= i < clients.len() && !((#[trigger] clients[i]).1.role is Spectator)
                    && clients[i].1.player_slot == Some(PlayerSlot(slot)),
    )
}

/// Where every player has a slot of its own, there are as many players as
/// slots with a player.
proof fn lemma_players_by_slot(clients: Seq<(PeerId, RoomClient)>)
    requires
        forall|i: int|
            0 <= i < clients.len() && !((#[trigger] clients[i]).1.role is Spectator)
                ==> clients[i].1.player_slot is Some,
        forall|i: int, j: int|
            0 <= i < clients.len() && 0 <= j < clients.len() && i != j && (
            #[trigger] clients[i]).1.player_slot is Some ==> clients[i].1.player_slot != (
            #[trigger] clients[j]).1.player_slot,
    ensures
        player_slots(clients).finite(),
        player_slots(clients).len() == count_players(clients),
    decreases clients.len(),
{
    if clients.len() == 0 {
        assert(player_slots(clients) =~= Set::<u8>::empty());
    } else {
        let init = clients.drop_last();
        let last = clients.len() - 1;
        assert forall|i: int| 0 <= i < init.len() implies #[trigger] init[i] == clients[i] by {}
        lemma_players_by_slot(init);
        if clients[last].1.role is Spectator {
            assert forall|slot: u8| player_slots(clients).contains(slot) == player_slots(
                init,
            ).contains(slot) by {
                if player_slots(clients).contains(slot) {
                    let i = choose|i: int|
                        0 <= i < clients.len() && !((#[trigger] clients[i]).1.role is Spectator)
                            && clients[i].1.player_slot == Some(PlayerSlot(slot));
                    assert(init[i] == clients[i]);
                }
                if player_slots(init).contains(slot) {
                    let i = choose|i: int|
                        0 <= i < init.len() && !((#[trigger] init[i]).1.role is Spectator)
                            && init[i].1.player_slot == Some(PlayerSlot(slot));
                    assert(clients[i] == init[i]);
                }
            }
            assert(player_slots(clients) =~= player_slots(init));
        } else {
            let mine_slot = clients[last].1.player_slot->0;
            let mine = mine_slot.0;
            assert forall|slot: u8| player_slots(clients).contains(slot) == player_slots(
                init,
            ).insert(mine).contains(slot) by {
                if player_slots(clients).contains(slot) {
                    let i = choose|i: int|
                        0 <= i < clients.len() && !((#[trigger] clients[i]).1.role is Spectator)
                            && clients[i].1.player_slot == Some(PlayerSlot(slot));
                    if i < last {
                        assert(init[i] == clients[i]);
                    }
                }
                if player_slots(init).contains(slot) {
                    let i = choose|i: int|
                        0 <= i < init.len() && !((#[trigger] init[i]).1.role is Spectator)
                            && init[i].1.player_slot == Some(PlayerSlot(slot));
                    assert(clients[i] == init[i]);
                }
                if slot == mine {
                    assert(clients[last].1.player_slot == Some(PlayerSlot(slot)));
                }
            }
            assert(player_slots(clients) =~= player_slots(init).insert(mine));
            if player_slots(init).contains(mine) {
                let i = choose|i: int|
                    0 <= i < init.len() && !((#[trigger] init[i]).1.role is Spectator)
                        && init[i].1.player_slot == Some(PlayerSlot(mine));
                assert(clients[i] == init[i]);
                assert(clients[i].1.player_slot != clients[last].1.player_slot);
            }
        }
    }
}

/// A room has at most four players.
pub proof fn lemma_player_bound(v: RoomView)
    requires
        v.slots_consistent(),
        v.roles_consistent(),
    ensures
        count_players(v.clients) <= 4,
{
    lemma_players_by_slot(v.clients);
    let slots = player_slots(v.clients);
    let all: Set<u8> = set![0u8, 1u8, 2u8, 3u8];
    assert forall|slot: u8| slots.contains(slot) implies all.contains(slot) by {
        let i = choose|i: int|
            0 <= i < v.clients.len() && !((#[trigger] v.clients[i]).1.role is Spectator)
                && v.clients[i].1.player_slot == Some(PlayerSlot(slot));
        assert(slot < 4);
    }
    assert(slots.subset_of(all));
    vstd::set_lib::lemma_len_subset(slots, all);
    assert(all.len() == 4) by {
        assert(all =~= Set::<u8>::empty().insert(0u8).insert(1u8).insert(2u8).insert(3u8));
    }
}

/// Taking a participant in and out again leaves the slots and the
/// participants of the room as they were.
pub proof fn lemma_add_then_remove(v: RoomView, client: RoomClient)
    requires
        v.wf(),
        v.accepts(client),
        !has_peer(v.clients, client.peer_id),
    ensures
        v.with_client(client).without_client(client.peer_id) == v,
{
    let added = v.with_client(client);
    lemma_with(v.clients, client.peer_id, client);
    assert(added.clients == v.clients.push((client.peer_id, client)));
    let last = v.clients.len() as int;
    crate::peer_table::lemma_index_of(added.clients, last);
    assert(added.clients.remove(last) =~= v.clients);
    let back = added.without_client(client.peer_id);
    assert(back.occupied_slots =~= v.occupied_slots);
}

/// The first place of a peer lies in the peers or at their end, and holds
/// the peer.
pub proof fn lemma_first_place(peers: Seq<PeerId>, peer: PeerId, from: int)
    requires
        0 <= from <= peers.len(),
    ensures
        from <= first_place(peers, peer, from) <= peers.len(),
        first_place(peers, peer, from) < peers.len() ==> peers[first_place(peers, peer, from)]
            == peer,
    decreases peers.len() - from,
{
    if from < peers.len() && peers[from] != peer {
        lemma_first_place(peers, peer, from + 1);
    }
}

/// Telling the streamer that a peer came keeps the shape of the room.
pub proof fn lemma_announcing(v: RoomView, peer_id: PeerId, message: ServerIpcMessage)
    requires
        v.wf(),
        announces(message, peer_id),
    ensures
        v.announcing(peer_id, message).wf(),
{
    let n = v.announcing(peer_id, message);
    if v.ipc_attached {
        let last = v.announcements.len() as int;
        assert forall|i: int| 0 <= i < n.announcements.len() implies ((
        #[trigger] n.announcements[i]) matches ServerIpcMessage::PeerDisconnected { peer_id: gone }
            ==> exists|j: int| 0 <= j < i && announces(#[trigger] n.announcements[j], gone)) by {
            if i < last {
                assert(n.announcements[i] == v.announcements[i]);
                if v.announcements[i] is PeerDisconnected {
                    let gone = v.announcements[i]->PeerDisconnected_peer_id;
                    let j = choose|j: int|
                        0 <= j < i && announces(#[trigger] v.announcements[j], gone);
                    assert(n.announcements[j] == v.announcements[j]);
                }
            }
        }
        assert forall|k: int| 0 <= k < n.announced.len() implies exists|j: int|
            0 <= j < n.announcements.len() && announces(
                #[trigger] n.announcements[j],
                #[trigger] n.announced[k],
            ) by {
            if k < v.announced.len() {
                assert(n.announced[k] == v.announced[k]);
                let j = choose|j: int|
                    0 <= j < v.announcements.len() && announces(
                        #[trigger] v.announcements[j],
                        v.announced[k],
                    );
                assert(n.announcements[j] == v.announcements[j]);
            } else {
                assert(n.announcements[last] == message);
            }
        }
    }
}

/// Telling the streamer that a peer left keeps the shape of the room.
pub proof fn lemma_dismissing(v: RoomView, peer_id: PeerId)
    requires
        v.wf(),
    ensures
        v.dismissing(peer_id).wf(),
{
    let n = v.dismissing(peer_id);
    lemma_first_place(v.announced, peer_id, 0);
    if v.is_announced(peer_id) {
        let place = first_place(v.announced, peer_id, 0);
        let last = v.announcements.len() as int;
        assert(v.announced[place] == peer_id);
        let told = choose|j: int|
            0 <= j < v.announcements.len() && announces(
                #[trigger] v.announcements[j],
                v.announced[place],
            );
        assert forall|i: int| 0 <= i < n.announcements.len() implies ((
        #[trigger] n.announcements[i]) matches ServerIpcMessage::PeerDisconnected { peer_id: gone }
            ==> exists|j: int| 0 <= j < i && announces(#[trigger] n.announcements[j], gone)) by {
            if i < last {
                assert(n.announcements[i] == v.announcements[i]);
                if v.announcements[i] is PeerDisconnected {
                    let gone = v.announcements[i]->PeerDisconnected_peer_id;
                    let j = choose|j: int|
                        0 <= j < i && announces(#[trigger] v.announcements[j], gone);
                    assert(n.announcements[j] == v.announcements[j]);
                }
            } else {
                assert(n.announcements[told] == v.announcements[told]);
            }
        }
        assert forall|k: int| 0 <= k < n.announced.len() implies exists|j: int|
            0 <= j < n.announcements.len() && announces(
                #[trigger] n.announcements[j],
                #[trigger] n.announced[k],
            ) by {
            let before = if k < place {
                k
            } else {
                k + 1
            };
            assert(n.announced[k] == v.announced[before]);
            let j = choose|j: int|
                0 <= j < v.announcements.len() && announces(
                    #[trigger] v.announcements[j],
                    v.announced[before],
                );
            assert(n.announcements[j] == v.announcements[j]);
        }
    }
}

/// The streamer of a room is told that a peer left only after it was told
/// that the peer came.
pub proof fn lemma_announced_before_dismissed(v: RoomView, i: int)
    requires
        v.wf(),
        0 <= i < v.announcements.len(),
        v.announcements[i] is PeerDisconnected,
    ensures
        exists|j: int|
            0 <= j < i && announces(
                #[trigger] v.announcements[j],
                v.announcements[i]->PeerDisconnected_peer_id,
            ),
{
}

} // verus!
