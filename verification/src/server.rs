//! The decisions of the server between a browser's web socket, the room,
//! and the room's streamer.
//!
//! The caller owns the sockets and the streamer process. It hands over what
//! arrived, and gets back what to send to whom; the room is changed on the
//! way.

use crate::api_bindings::{
    duplicate_ice_servers, same_ice_servers, LogMessageType, PlayerSlot, RoomRole,
    StreamClientMessage, StreamServerMessage,
};
use crate::host::{AppId, HostId, StorageHostPairInfo};
use crate::ipc::{PeerId, ServerIpcMessage, StreamerIpcMessage};
use crate::peer_table::{has_peer, lookup, peers_of};
use crate::room::{Delivery, Room, RoomClient, RoomView, StreamState};
use vstd::prelude::*;

verus! {

/// What a guest names when it asks to join a room.
#[derive(Clone, Debug, PartialEq, Eq)]
pub struct GuestStreamQuery {
    pub room_id: String,
    pub player_name: Option<String>,
}

/// The queue sizes of a guest that names none.
pub const GUEST_QUEUE_SIZE: usize = 4;

/// One frame of a browser's web socket.
#[derive(Clone, Debug, PartialEq, Eq)]
pub enum WsFrame {
    Text(String),
    Binary(Vec<u8>),
    Close,
    /// A frame of the web socket's own upkeep.
    Other,
}

/// What is to be done with a frame that arrives before the browser said
/// what it wants.
#[derive(Clone, Debug, PartialEq, Eq)]
pub enum FirstFrame {
    /// The text is to be read as the browser's first message.
    Read(String),
    /// The next frame is to be waited for.
    Skip,
    /// The connection is given up.
    Abandon,
}

/// Decides what is to be done with what arrives before the browser said
/// what it wants: a frame, or `None` where the web socket failed or ended.
/// The first text is the first message; data instead of a text, a failure
/// and the end give the connection up.
pub fn first_frame(frame: Option<WsFrame>) -> (r: FirstFrame)
    ensures
        r == (match frame {
            Some(WsFrame::Text(text)) => FirstFrame::Read(text),
            Some(WsFrame::Binary(_)) => FirstFrame::Abandon,
            Some(_) => FirstFrame::Skip,
            None => FirstFrame::Abandon,
        }),
{
    match frame {
        Some(WsFrame::Text(text)) => FirstFrame::Read(text),
        Some(WsFrame::Binary(_)) => FirstFrame::Abandon,
        Some(_) => FirstFrame::Skip,
        None => FirstFrame::Abandon,
    }
}

/// What a browser's first message leads to.
#[derive(Clone, Debug, PartialEq, Eq)]
pub enum Acceptance {
    /// The browser opens a room as its host.
    Init { host_id: HostId, app_id: AppId, video_frame_queue_size: usize, audio_sample_queue_size: usize },
    /// The browser joins a room.
    JoinRoom {
        room_id: String,
        player_name: Option<String>,
        video_frame_queue_size: usize,
        audio_sample_queue_size: usize,
    },
    /// The web socket is closed.
    Close,
    /// The connection is given up as it is.
    Abandon,
}

/// Decides what a browser's first message leads to. `None` stands for a
/// text that is no message: the connection is given up. A message other
/// than `Init` and `JoinRoom` closes the web socket.
pub fn accept_first_message(message: Option<StreamClientMessage>) -> (r: Acceptance)
    ensures
        r == (match message {
            Some(
                StreamClientMessage::Init {
                    host_id,
                    app_id,
                    video_frame_queue_size,
                    audio_sample_queue_size,
                },
            ) => Acceptance::Init {
                host_id: HostId(host_id),
                app_id: AppId(app_id),
                video_frame_queue_size,
                audio_sample_queue_size,
            },
            Some(
                StreamClientMessage::JoinRoom {
                    room_id,
                    player_name,
                    video_frame_queue_size,
                    audio_sample_queue_size,
                },
            ) => Acceptance::JoinRoom {
                room_id,
                player_name,
                video_frame_queue_size,
                audio_sample_queue_size,
            },
            Some(_) => Acceptance::Close,
            None => Acceptance::Abandon,
        }),
{
    match message {
        Some(
            StreamClientMessage::Init {
                host_id,
                app_id,
                video_frame_queue_size,
                audio_sample_queue_size,
            },
        ) => Acceptance::Init {
            host_id: HostId(host_id),
            app_id: AppId(app_id),
            video_frame_queue_size,
            audio_sample_queue_size,
        },
        Some(
            StreamClientMessage::JoinRoom {
                room_id,
                player_name,
                video_frame_queue_size,
                audio_sample_queue_size,
            },
        ) => Acceptance::JoinRoom {
            room_id,
            player_name,
            video_frame_queue_size,
            audio_sample_queue_size,
        },
        Some(_) => Acceptance::Close,
        None => Acceptance::Abandon,
    }
}

/// Where the opening of a room failed.
#[derive(Clone, Copy, Debug, PartialEq, Eq, Structural)]
pub enum InitFailure {
    /// The server knows no such host.
    HostNotFound,
    /// The host could not be looked up.
    Host,
    /// The apps of the host could not be listed.
    ListApps,
    /// The host has no such app.
    AppNotFound,
    /// The address of the host could not be looked up.
    AddressPort,
    /// The host is not paired with the server.
    PairInfo,
    /// The streamer could not be started.
    Spawn,
    /// The streamer came up without its standard streams.
    StreamerStreams,
}

/// What the browser is told where the opening of a room failed at `failure`.
pub open spec fn init_failure_text(failure: InitFailure) -> Seq<char> {
    match failure {
        InitFailure::HostNotFound => "Failed to start stream because the host was not found"@,
        InitFailure::AppNotFound => "Failed to start stream because the app was not found"@,
        InitFailure::PairInfo => "Failed to start stream because the host is not paired"@,
        _ => "Failed to start stream because of a server error"@,
    }
}

/// The message for the browser where the opening of a room failed: a
/// description of a fatal error. After it the web socket is closed.
pub fn init_failure_message(failure: InitFailure) -> (r: StreamServerMessage)
    ensures
        r matches StreamServerMessage::DebugLog { message, ty } && message@ == init_failure_text(
            failure,
        ) && ty == Some(LogMessageType::FatalDescription),
{
    let message = match failure {
        InitFailure::HostNotFound => "Failed to start stream because the host was not found",
        InitFailure::AppNotFound => "Failed to start stream because the app was not found",
        InitFailure::PairInfo => "Failed to start stream because the host is not paired",
        InitFailure::Host => "Failed to start stream because of a server error",
        InitFailure::ListApps => "Failed to start stream because of a server error",
        InitFailure::AddressPort => "Failed to start stream because of a server error",
        InitFailure::Spawn => "Failed to start stream because of a server error",
        InitFailure::StreamerStreams => "Failed to start stream because of a server error",
    };
    StreamServerMessage::DebugLog {
        message: message.to_string(),
        ty: Some(LogMessageType::FatalDescription),
    }
}

/// Why a browser cannot join a room.
#[derive(Clone, Copy, Debug, PartialEq, Eq, Structural)]
pub enum JoinRefusal {
    RoomNotFound,
    RoomFull,
    Failed,
}

/// What the browser is told where it cannot join.
pub open spec fn join_refusal_text(refusal: JoinRefusal) -> Seq<char> {
    match refusal {
        JoinRefusal::RoomNotFound => "Room not found"@,
        JoinRefusal::RoomFull => "Room is full"@,
        JoinRefusal::Failed => "Failed to join room"@,
    }
}

/// The message for a browser that cannot join. After it the web socket is
/// closed.
pub fn join_refusal_message(refusal: JoinRefusal) -> (r: StreamServerMessage)
    ensures
        r matches StreamServerMessage::RoomJoinFailed { reason } && reason@ == join_refusal_text(
            refusal,
        ),
{
    let reason = match refusal {
        JoinRefusal::RoomNotFound => "Room not found",
        JoinRefusal::RoomFull => "Room is full",
        JoinRefusal::Failed => "Failed to join room",
    };
    StreamServerMessage::RoomJoinFailed { reason: reason.to_string() }
}

/// The message that tells a browser how to read the stream, from what the
/// room kept of it.
pub open spec fn snapshot_message(state: StreamState) -> StreamServerMessage {
    StreamServerMessage::ConnectionComplete {
        capabilities: state.capabilities,
        format: state.format,
        width: state.width,
        height: state.height,
        fps: state.fps,
        audio_sample_rate: state.audio_sample_rate,
        audio_channel_count: state.audio_channel_count,
        audio_streams: state.audio_streams,
        audio_coupled_streams: state.audio_coupled_streams,
        audio_samples_per_frame: state.audio_samples_per_frame,
        audio_mapping: state.audio_mapping,
    }
}

/// What a room keeps of a message of its streamer for those who join late:
/// of the message that tells how to read the stream, all of it.
pub open spec fn snapshot_of(message: StreamServerMessage) -> Option<StreamState> {
    match message {
        StreamServerMessage::ConnectionComplete {
            capabilities,
            format,
            width,
            height,
            fps,
            audio_sample_rate,
            audio_channel_count,
            audio_streams,
            audio_coupled_streams,
            audio_samples_per_frame,
            audio_mapping,
        } => Some(
            StreamState {
                capabilities,
                format,
                width,
                height,
                fps,
                audio_sample_rate,
                audio_channel_count,
                audio_streams,
                audio_coupled_streams,
                audio_samples_per_frame,
                audio_mapping,
            },
        ),
        _ => None,
    }
}

/// Keeping a message and making it anew gives the message back.
pub proof fn lemma_snapshot_round_trip(state: StreamState)
    ensures
        snapshot_of(snapshot_message(state)) == Some(state),
{
}

/// One participant's stay in a room that has a streamer, from the moment
/// the streamer was told of the participant.
#[derive(Debug)]
pub struct PeerSession {
    peer_id: PeerId,
    player_slot: Option<PlayerSlot>,
    role: RoomRole,
}

impl PeerSession {
    pub closed spec fn spec_peer_id(&self) -> PeerId {
        self.peer_id
    }

    pub closed spec fn spec_player_slot(&self) -> Option<PlayerSlot> {
        self.player_slot
    }

    pub closed spec fn spec_role(&self) -> RoomRole {
        self.role
    }

    #[verifier::when_used_as_spec(spec_peer_id)]
    pub fn peer_id(&self) -> (r: PeerId)
        ensures
            r == self.spec_peer_id(),
    {
        self.peer_id
    }

    #[verifier::when_used_as_spec(spec_player_slot)]
    pub fn player_slot(&self) -> (r: Option<PlayerSlot>)
        ensures
            r == self.spec_player_slot(),
    {
        self.player_slot
    }

    #[verifier::when_used_as_spec(spec_role)]
    pub fn role(&self) -> (r: RoomRole)
        ensures
            r == self.spec_role(),
    {
        self.role
    }
}

/// Whether `client` is the host of a room as `open_room` enters it: in slot
/// 0, under the name "Host".
pub open spec fn is_host_client(
    client: RoomClient,
    peer_id: PeerId,
    video_frame_queue_size: usize,
    audio_sample_queue_size: usize,
) -> bool {
    &&& client.peer_id == peer_id
    &&& client.player_slot == Some(PlayerSlot(0))
    &&& client.role is Host
    &&& client.player_name matches Some(name) && name@ == "Host"@
    &&& client.discord_user_id is None
    &&& client.discord_avatar is None
    &&& client.video_frame_queue_size == video_frame_queue_size
    &&& client.audio_sample_queue_size == audio_sample_queue_size
}

/// The guest that joins a room as a player in `slot`.
pub open spec fn guest_client(
    peer_id: PeerId,
    slot: PlayerSlot,
    player_name: Option<String>,
    video_frame_queue_size: usize,
    audio_sample_queue_size: usize,
) -> RoomClient {
    RoomClient {
        peer_id,
        player_slot: Some(slot),
        role: RoomRole::Player,
        player_name,
        discord_user_id: None,
        discord_avatar: None,
        video_frame_queue_size,
        audio_sample_queue_size,
    }
}

/// The message that tells a streamer that a guest joined its room as a
/// player.
pub open spec fn guest_connected(
    peer_id: PeerId,
    slot: PlayerSlot,
    video_frame_queue_size: usize,
    audio_sample_queue_size: usize,
) -> ServerIpcMessage {
    ServerIpcMessage::PeerConnected {
        peer_id,
        player_slot: Some(slot),
        role: RoomRole::Player,
        video_frame_queue_size,
        audio_sample_queue_size,
    }
}

/// Whether `message` tells the participants how the room `v` looks now.
pub open spec fn is_room_update(message: StreamServerMessage, v: RoomView) -> bool {
    message matches StreamServerMessage::RoomUpdated { room } && v.info_matches(room)
}

/// Whether `delivery` carries `message` to every participant of the room
/// `v`.
pub open spec fn reaches_all(delivery: Delivery, v: RoomView) -> bool {
    delivery.recipients@ == peers_of(v.clients)
}

/// What the host is told when its room is open.
#[derive(Clone, Debug, PartialEq, Eq)]
pub struct Hosted {
    /// That the room is open, and how it looks.
    pub created: StreamServerMessage,
    /// That the streamer is being started.
    pub launching: StreamServerMessage,
}

/// Enters the host into its new room: in slot 0, under the name "Host". A
/// room whose slot 0 is taken stays as it is.
pub fn open_room(
    room: &mut Room,
    peer_id: PeerId,
    video_frame_queue_size: usize,
    audio_sample_queue_size: usize,
) -> (r: Hosted)
    requires
        old(room).wf(),
    ensures
        final(room).wf(),
        old(room)@.occupied_slots[0] ==> final(room)@ == old(room)@,
        !old(room)@.occupied_slots[0] ==> final(room)@.clients.len() > 0 && is_host_client(
            final(room)@.clients.last().1,
            peer_id,
            video_frame_queue_size,
            audio_sample_queue_size,
        ) && final(room)@ == old(room)@.with_client(final(room)@.clients.last().1),
        r.created matches StreamServerMessage::RoomCreated { room: info, player_slot }
            && player_slot == PlayerSlot(0) && final(room)@.info_matches(info),
        r.launching matches StreamServerMessage::DebugLog { message, ty } && message@
            == "Launching streamer"@ && ty is None,
        old(room)@.slots_consistent() && !has_peer(old(room)@.clients, peer_id) ==> final(room)@.slots_consistent(),
        old(room)@.roles_consistent() ==> final(room)@.roles_consistent(),
{
    let player_slot = PlayerSlot(0);
    let client = RoomClient {
        peer_id,
        player_slot: Some(player_slot),
        role: RoomRole::Host,
        player_name: Some("Host".to_string()),
        discord_user_id: None,
        discord_avatar: None,
        video_frame_queue_size,
        audio_sample_queue_size,
    };
    let ghost entered = client;
    let taken = room.add_client(client);
    proof {
        if taken {
            crate::peer_table::lemma_with(old(room)@.clients, peer_id, entered);
            assert(room@.clients.last() == (peer_id, entered));
        }
    }
    Hosted {
        created: StreamServerMessage::RoomCreated { room: room.to_room_info(), player_slot },
        launching: StreamServerMessage::DebugLog {
            message: "Launching streamer".to_string(),
            ty: None,
        },
    }
}

/// What a new streamer is told first, and the host's stay in the room.
#[derive(Debug)]
pub struct Greeting {
    /// What the streamer needs to reach the streaming host.
    pub init: ServerIpcMessage,
    /// That the host is in the room.
    pub host_connected: ServerIpcMessage,
    pub session: PeerSession,
}

/// The message that tells a streamer that the host of its room is there.
pub open spec fn host_connected(
    peer_id: PeerId,
    video_frame_queue_size: usize,
    audio_sample_queue_size: usize,
) -> ServerIpcMessage {
    ServerIpcMessage::PeerConnected {
        peer_id,
        player_slot: Some(PlayerSlot(0)),
        role: RoomRole::Host,
        video_frame_queue_size,
        audio_sample_queue_size,
    }
}

/// Notes that the room has its streamer, and says what the streamer is
/// told first: how to reach the streaming host, then that the host of the
/// room is there.
pub fn greet_streamer(
    room: &mut Room,
    config: crate::ipc::StreamerConfig,
    host_address: String,
    host_http_port: u16,
    client_unique_id: String,
    pair_info: StorageHostPairInfo,
    app_id: AppId,
    peer_id: PeerId,
    video_frame_queue_size: usize,
    audio_sample_queue_size: usize,
) -> (r: Greeting)
    requires
        old(room).wf(),
    ensures
        final(room).wf(),
        final(room)@ == (RoomView { ipc_attached: true, ..old(room)@ }).announcing(
            peer_id,
            host_connected(peer_id, video_frame_queue_size, audio_sample_queue_size),
        ),
        r.init == (ServerIpcMessage::Init {
            config,
            host_address,
            host_http_port,
            client_unique_id: Some(client_unique_id),
            client_private_key: pair_info.client_private_key,
            client_certificate: pair_info.client_certificate,
            server_certificate: pair_info.server_certificate,
            app_id: app_id.0,
            video_frame_queue_size,
            audio_sample_queue_size,
        }),
        r.host_connected == host_connected(
            peer_id,
            video_frame_queue_size,
            audio_sample_queue_size,
        ),
        r.session.peer_id() == peer_id,
        r.session.player_slot() == Some(PlayerSlot(0)),
        r.session.role() == RoomRole::Host,
        old(room)@.slots_consistent() ==> final(room)@.slots_consistent(),
        old(room)@.roles_consistent() ==> final(room)@.roles_consistent(),
{
    room.attach_ipc_sender();
    let host_connected = match room.announce_peer(
        peer_id,
        Some(PlayerSlot(0)),
        RoomRole::Host,
        video_frame_queue_size,
        audio_sample_queue_size,
    ) {
        Some(message) => message,
        None => ServerIpcMessage::PeerConnected {
            peer_id,
            player_slot: Some(PlayerSlot(0)),
            role: RoomRole::Host,
            video_frame_queue_size,
            audio_sample_queue_size,
        },
    };
    Greeting {
        init: ServerIpcMessage::Init {
            config,
            host_address,
            host_http_port,
            client_unique_id: Some(client_unique_id),
            client_private_key: pair_info.client_private_key,
            client_certificate: pair_info.client_certificate,
            server_certificate: pair_info.server_certificate,
            app_id: app_id.0,
            video_frame_queue_size,
            audio_sample_queue_size,
        },
        host_connected,
        session: PeerSession { peer_id, player_slot: Some(PlayerSlot(0)), role: RoomRole::Host },
    }
}

/// What follows when a guest has joined a room.
#[derive(Debug)]
pub struct Joined {
    pub peer_id: PeerId,
    pub player_slot: PlayerSlot,
    /// What the guest is told, in this order.
    pub replies: Vec<StreamServerMessage>,
    /// What every participant is told: how the room looks now.
    pub update: Delivery,
    /// What the streamer is told, if the room has one.
    pub announce: Option<ServerIpcMessage>,
    /// The guest's stay in the room: the frames of the guest are read while
    /// it lasts, and when it ends the guest is taken out of the room.
    pub session: PeerSession,
}

/// Whether `replies` is what a guest is told that joined the room `v` in
/// `slot`: that it joined; then the servers that help it to find a way to
/// the streamer, if the room knows them; then how to read the stream, if
/// the stream has begun.
pub open spec fn replies_match(replies: Seq<StreamServerMessage>, v: RoomView, slot: PlayerSlot) -> bool {
    let with_servers: int = if v.ice_servers is Some {
        1
    } else {
        0
    };
    let with_stream: int = if v.stream_state is Some {
        1
    } else {
        0
    };
    &&& replies.len() == 1 + with_servers + with_stream
    &&& replies[0] matches StreamServerMessage::RoomJoined { room, player_slot } && player_slot
        == slot && v.info_matches(room)
    &&& v.ice_servers matches Some(kept) ==> (replies[1] matches StreamServerMessage::Setup {
        ice_servers,
    } && same_ice_servers(ice_servers@, kept@))
    &&& v.stream_state matches Some(state) ==> replies[1 + with_servers] == snapshot_message(state)
}

/// Whether `joined` is what follows when `peer_id` has joined the room,
/// which is `v` now, as a player in `slot`.
pub open spec fn joined_matches(
    joined: Joined,
    v: RoomView,
    peer_id: PeerId,
    slot: PlayerSlot,
    video_frame_queue_size: usize,
    audio_sample_queue_size: usize,
) -> bool {
    &&& joined.peer_id == peer_id
    &&& joined.player_slot == slot
    &&& replies_match(joined.replies@, v, slot)
    &&& reaches_all(joined.update, v)
    &&& is_room_update(joined.update.message, v)
    &&& joined.announce == (if v.ipc_attached {
        Some(guest_connected(peer_id, slot, video_frame_queue_size, audio_sample_queue_size))
    } else {
        None
    })
    &&& joined.session.peer_id() == peer_id
    &&& joined.session.player_slot() == Some(slot)
    &&& joined.session.role() == RoomRole::Player
}

/// Takes a guest into a room as a player in the lowest free slot. A room
/// without a free slot takes no guest.
///
/// The guest is told that it joined and what it needs to read a stream
/// that has begun; every participant is told how the room looks now; the
/// streamer, if the room has one, is told of the guest.
pub fn join_room(
    room: &mut Room,
    peer_id: PeerId,
    player_name: Option<String>,
    video_frame_queue_size: usize,
    audio_sample_queue_size: usize,
) -> (r: Result<Joined, JoinRefusal>)
    requires
        old(room).wf(),
    ensures
        final(room).wf(),
        match crate::room::first_free_slot(old(room)@.occupied_slots, 0) {
            None => r == Err::<Joined, JoinRefusal>(JoinRefusal::RoomFull) && final(room)@ == old(room)@,
            Some(slot) => r matches Ok(joined) && final(room)@ == old(room)@.with_client(
                guest_client(
                    peer_id,
                    slot,
                    player_name,
                    video_frame_queue_size,
                    audio_sample_queue_size,
                ),
            ).announcing(
                peer_id,
                guest_connected(peer_id, slot, video_frame_queue_size, audio_sample_queue_size),
            ) && joined_matches(
                joined,
                final(room)@,
                peer_id,
                slot,
                video_frame_queue_size,
                audio_sample_queue_size,
            ),
        },
        old(room)@.slots_consistent() && !has_peer(old(room)@.clients, peer_id) ==> final(room)@.slots_consistent(),
        old(room)@.roles_consistent() ==> final(room)@.roles_consistent(),
{
    let player_slot = match room.next_available_slot() {
        Some(slot) => slot,
        None => {
            return Err(JoinRefusal::RoomFull);
        },
    };
    let client = RoomClient {
        peer_id,
        player_slot: Some(player_slot),
        role: RoomRole::Player,
        player_name,
        discord_user_id: None,
        discord_avatar: None,
        video_frame_queue_size,
        audio_sample_queue_size,
    };
    if !room.add_client(client) {
        return Err(JoinRefusal::Failed);
    }
    let announce = room.announce_peer(
        peer_id,
        Some(player_slot),
        RoomRole::Player,
        video_frame_queue_size,
        audio_sample_queue_size,
    );
    let mut replies: Vec<StreamServerMessage> = Vec::new();
    replies.push(StreamServerMessage::RoomJoined { room: room.to_room_info(), player_slot });
    match room.ice_servers() {
        Some(ice_servers) => {
            replies.push(
                StreamServerMessage::Setup { ice_servers: duplicate_ice_servers(ice_servers) },
            );
        },
        None => {},
    }
    match room.stream_state() {
        Some(state) => {
            replies.push(stream_state_message(state));
        },
        None => {},
    }
    let update = room.broadcast(StreamServerMessage::RoomUpdated { room: room.to_room_info() });
    let session = PeerSession { peer_id, player_slot: Some(player_slot), role: RoomRole::Player };
    Ok(Joined { peer_id, player_slot, replies, update, announce, session })
}

/// The message that tells a browser how to read the stream, from what the
/// room kept of it.
pub fn stream_state_message(state: StreamState) -> (r: StreamServerMessage)
    ensures
        r == snapshot_message(state),
{
    StreamServerMessage::ConnectionComplete {
        capabilities: state.capabilities,
        format: state.format,
        width: state.width,
        height: state.height,
        fps: state.fps,
        audio_sample_rate: state.audio_sample_rate,
        audio_channel_count: state.audio_channel_count,
        audio_streams: state.audio_streams,
        audio_coupled_streams: state.audio_coupled_streams,
        audio_samples_per_frame: state.audio_samples_per_frame,
        audio_mapping: state.audio_mapping,
    }
}

/// What a participant sent after it joined.
#[derive(Clone, Debug, PartialEq, Eq)]
pub enum ClientFrame {
    /// A text that is a message.
    Message(StreamClientMessage),
    /// A text that is no message.
    Unreadable,
    /// Transport data.
    Binary(Vec<u8>),
    Close,
    /// A frame of the web socket's own upkeep.
    Other,
}

/// What is to be done with a frame of a participant.
#[derive(Clone, Debug, PartialEq, Eq)]
pub enum FrameOutcome {
    /// The participant leaves the room.
    Leave,
    /// The participant stays.
    Continue {
        /// What the streamer is told.
        to_streamer: Option<ServerIpcMessage>,
        /// What every participant is told.
        broadcast: Option<Delivery>,
    },
}

/// The room after `frame` of a participant of role `role` was dealt with:
/// the host's word on keyboard and mouse of the guests is noted.
pub open spec fn after_client_frame(v: RoomView, role: RoomRole, frame: ClientFrame) -> RoomView {
    match frame {
        ClientFrame::Message(StreamClientMessage::SetGuestsKeyboardMouseEnabled { enabled }) => {
            if role is Host {
                RoomView { guests_keyboard_mouse_enabled: enabled, ..v }
            } else {
                v
            }
        },
        _ => v,
    }
}

/// Whether `outcome` is what is to be done with `frame` of the participant
/// `peer_id` of role `role` in the room `v`.
///
/// A request to leave and the closing of the web socket end the stay. The
/// host's word on keyboard and mouse of the guests goes to the streamer, if
/// the room has one, and to every participant; the same word of a guest is
/// passed over. Every other message and all data go to the streamer under
/// the participant's name. A text that is no message is passed over.
pub open spec fn frame_outcome_is(
    outcome: FrameOutcome,
    v: RoomView,
    peer_id: PeerId,
    role: RoomRole,
    frame: ClientFrame,
) -> bool {
    match frame {
        ClientFrame::Message(StreamClientMessage::LeaveRoom) => outcome == FrameOutcome::Leave,
        ClientFrame::Close => outcome == FrameOutcome::Leave,
        ClientFrame::Message(StreamClientMessage::SetGuestsKeyboardMouseEnabled { enabled }) => {
            if role is Host {
                outcome matches FrameOutcome::Continue { to_streamer, broadcast } && to_streamer
                    == (if v.ipc_attached {
                    Some(ServerIpcMessage::SetGuestsKeyboardMouseEnabled { enabled })
                } else {
                    None
                }) && (broadcast matches Some(delivery) && reaches_all(delivery, v)
                    && delivery.message == (StreamServerMessage::GuestsKeyboardMouseEnabled {
                    enabled,
                }))
            } else {
                outcome == (FrameOutcome::Continue { to_streamer: None, broadcast: None })
            }
        },
        ClientFrame::Message(message) => outcome == (FrameOutcome::Continue {
            to_streamer: if v.is_announced(peer_id) {
                Some(ServerIpcMessage::PeerWebSocket { peer_id, message })
            } else {
                None
            },
            broadcast: None,
        }),
        ClientFrame::Binary(data) => outcome == (FrameOutcome::Continue {
            to_streamer: if v.is_announced(peer_id) {
                Some(ServerIpcMessage::PeerWebSocketTransport { peer_id, data })
            } else {
                None
            },
            broadcast: None,
        }),
        _ => outcome == (FrameOutcome::Continue { to_streamer: None, broadcast: None }),
    }
}

/// Decides what is to be done with a frame of a participant. See
/// `frame_outcome_is`.
pub fn on_client_frame(room: &mut Room, session: &PeerSession, frame: ClientFrame) -> (r:
    FrameOutcome)
    ensures
        frame_outcome_is(r, old(room)@, session.peer_id(), session.role(), frame),
        final(room)@ == after_client_frame(old(room)@, session.role(), frame),
{
    match frame {
        ClientFrame::Message(StreamClientMessage::LeaveRoom) => FrameOutcome::Leave,
        ClientFrame::Close => FrameOutcome::Leave,
        ClientFrame::Message(StreamClientMessage::SetGuestsKeyboardMouseEnabled { enabled }) => {
            if session.role.is_host() {
                let to_streamer = room.set_guests_keyboard_mouse_enabled(enabled);
                let broadcast = room.broadcast(
                    StreamServerMessage::GuestsKeyboardMouseEnabled { enabled },
                );
                FrameOutcome::Continue { to_streamer, broadcast: Some(broadcast) }
            } else {
                FrameOutcome::Continue { to_streamer: None, broadcast: None }
            }
        },
        ClientFrame::Message(message) => FrameOutcome::Continue {
            to_streamer: if room.is_announced(session.peer_id) {
                Some(ServerIpcMessage::PeerWebSocket { peer_id: session.peer_id, message })
            } else {
                None
            },
            broadcast: None,
        },
        ClientFrame::Binary(data) => FrameOutcome::Continue {
            to_streamer: if room.is_announced(session.peer_id) {
                Some(ServerIpcMessage::PeerWebSocketTransport { peer_id: session.peer_id, data })
            } else {
                None
            },
            broadcast: None,
        },
        ClientFrame::Unreadable => FrameOutcome::Continue { to_streamer: None, broadcast: None },
        ClientFrame::Other => FrameOutcome::Continue { to_streamer: None, broadcast: None },
    }
}

/// What follows when a participant has left a room.
#[derive(Clone, Debug, PartialEq, Eq)]
pub struct Departure {
    /// What the streamer is told first: that the participant left. Nothing,
    /// if the streamer was never told that the participant came.
    pub notify: Option<ServerIpcMessage>,
    /// What those who stay are told, in this order.
    pub broadcasts: Vec<Delivery>,
    /// Whether the room is to be taken out of the registry.
    pub close_room: bool,
    /// What the streamer is told last, where the room closes: to stop.
    pub stop: Option<ServerIpcMessage>,
}

/// Whether `departure` is what follows when the participant `peer_id`, who
/// joined in `slot`, has left the room, which was `before` and is `v` now.
///
/// With the host the room goes: those who stay are told that it closed.
/// When a player left, those who stay are told which slot is free and how
/// the room looks now; when a spectator left, only the latter. A room that
/// is empty closes too.
pub open spec fn departure_matches(
    departure: Departure,
    before: RoomView,
    v: RoomView,
    peer_id: PeerId,
    slot: Option<PlayerSlot>,
) -> bool {
    &&& departure.notify == (if before.is_announced(peer_id) {
        Some(ServerIpcMessage::PeerDisconnected { peer_id })
    } else {
        None
    })
    &&& departure.stop == (if departure.close_room && before.ipc_attached {
        Some(ServerIpcMessage::Stop)
    } else {
        None
    })
    &&& forall|i: int|
        0 <= i < departure.broadcasts@.len() ==> reaches_all(#[trigger] departure.broadcasts@[i], v)
    &&& match slot {
        Some(slot) => if slot.0 == 0 {
            &&& departure.close_room
            &&& departure.broadcasts@.len() == 1
            &&& departure.broadcasts@[0].message == StreamServerMessage::RoomClosed
        } else {
            &&& departure.close_room == (v.clients.len() == 0)
            &&& departure.broadcasts@.len() == 2
            &&& departure.broadcasts@[0].message == (StreamServerMessage::PlayerLeft { slot })
            &&& is_room_update(departure.broadcasts@[1].message, v)
        },
        None => {
            &&& departure.close_room == (v.clients.len() == 0)
            &&& departure.broadcasts@.len() == 1
            &&& is_room_update(departure.broadcasts@[0].message, v)
        },
    }
}

/// Takes a participant whose stay ended out of its room, and says what
/// follows. See `departure_matches`.
pub fn on_client_disconnect(room: &mut Room, session: PeerSession) -> (r: Departure)
    requires
        old(room).wf(),
    ensures
        final(room).wf(),
        final(room)@ == old(room)@.without_client(session.peer_id()).dismissing(session.peer_id()),
        departure_matches(
            r,
            old(room)@,
            final(room)@,
            session.peer_id(),
            session.player_slot(),
        ),
        old(room)@.slots_consistent() ==> final(room)@.slots_consistent(),
        old(room)@.roles_consistent() ==> final(room)@.roles_consistent(),
{
    let peer_id = session.peer_id;
    let _ = room.remove_client(peer_id);
    let notify = room.dismiss_peer(peer_id);
    let mut broadcasts: Vec<Delivery> = Vec::new();
    let close_room = match session.player_slot {
        Some(slot) => {
            if slot.is_host() {
                broadcasts.push(room.broadcast(StreamServerMessage::RoomClosed));
                true
            } else {
                broadcasts.push(room.broadcast(StreamServerMessage::PlayerLeft { slot }));
                broadcasts.push(
                    room.broadcast(StreamServerMessage::RoomUpdated { room: room.to_room_info() }),
                );
                room.is_empty()
            }
        },
        None => {
            broadcasts.push(
                room.broadcast(StreamServerMessage::RoomUpdated { room: room.to_room_info() }),
            );
            room.is_empty()
        },
    };
    let stop = if close_room && room.has_ipc_sender() {
        Some(ServerIpcMessage::Stop)
    } else {
        None
    };
    Departure { notify, broadcasts, close_room, stop }
}

/// What is to be done with a message of a room's streamer.
#[derive(Clone, Debug, PartialEq, Eq)]
pub enum Downlink {
    /// A text for some participants.
    Text(Delivery),
    /// Data for some participants, in the order in which they came to the
    /// room.
    Binary { recipients: Vec<PeerId>, data: Vec<u8> },
    /// Nothing.
    Nothing,
    /// The streamer stopped: no more messages are to be read.
    End,
}

/// The room after `message` of its streamer was dealt with, but for the
/// servers that help to find a way: the room keeps how to read the stream.
pub open spec fn after_streamer_message(v: RoomView, message: StreamerIpcMessage) -> RoomView {
    match message {
        StreamerIpcMessage::WebSocket(message) => match snapshot_of(message) {
            Some(state) => RoomView { stream_state: Some(state), ..v },
            None => v,
        },
        _ => v,
    }
}

/// Whether `outcome` is what is to be done with `message` of the streamer
/// of the room `v`.
///
/// What is meant for all goes to every participant, what is meant for one
/// goes to that one if it is in the room. That a transport is negotiated
/// leads to nothing. `Stop` ends the reading.
pub open spec fn downlink_is(outcome: Downlink, v: RoomView, message: StreamerIpcMessage) -> bool {
    match message {
        StreamerIpcMessage::WebSocket(message) => outcome matches Downlink::Text(delivery)
            && reaches_all(delivery, v) && delivery.message == message,
        StreamerIpcMessage::PeerWebSocket { peer_id, message } => if has_peer(v.clients, peer_id) {
            outcome matches Downlink::Text(delivery) && delivery.recipients@ == seq![peer_id]
                && delivery.message == message
        } else {
            outcome == Downlink::Nothing
        },
        StreamerIpcMessage::WebSocketTransport(data) => outcome matches Downlink::Binary {
            recipients,
            data: sent,
        } && recipients@ == peers_of(v.clients) && sent == data,
        StreamerIpcMessage::PeerWebSocketTransport { peer_id, data } => if has_peer(
            v.clients,
            peer_id,
        ) {
            outcome matches Downlink::Binary { recipients, data: sent } && recipients@
                == seq![peer_id] && sent == data
        } else {
            outcome == Downlink::Nothing
        },
        StreamerIpcMessage::PeerReady { .. } => outcome == Downlink::Nothing,
        StreamerIpcMessage::Stop => outcome == Downlink::End,
    }
}

/// Decides what is to be done with a message of a room's streamer, and
/// keeps for those who join late what the message holds for them: the
/// servers that help to find a way to the streamer, and how to read the
/// stream. See `downlink_is`.
pub fn on_streamer_message(room: &mut Room, message: StreamerIpcMessage) -> (r: Downlink)
    requires
        old(room).wf(),
    ensures
        final(room).wf(),
        downlink_is(r, old(room)@, message),
        final(room)@ == (RoomView {
            ice_servers: final(room)@.ice_servers,
            ..after_streamer_message(old(room)@, message)
        }),
        match message {
            StreamerIpcMessage::WebSocket(StreamServerMessage::Setup { ice_servers }) => final(room)@.ice_servers matches Some(kept) && same_ice_servers(kept@, ice_servers@),
            _ => final(room)@.ice_servers == old(room)@.ice_servers,
        },
        old(room)@.slots_consistent() ==> final(room)@.slots_consistent(),
        old(room)@.roles_consistent() ==> final(room)@.roles_consistent(),
{
    match message {
        StreamerIpcMessage::WebSocket(message) => {
            match &message {
                StreamServerMessage::Setup { ice_servers } => {
                    room.set_ice_servers(duplicate_ice_servers(ice_servers));
                },
                StreamServerMessage::ConnectionComplete {
                    capabilities,
                    format,
                    width,
                    height,
                    fps,
                    audio_sample_rate,
                    audio_channel_count,
                    audio_streams,
                    audio_coupled_streams,
                    audio_samples_per_frame,
                    audio_mapping,
                } => {
                    room.set_stream_state(
                        StreamState {
                            capabilities: *capabilities,
                            format: *format,
                            width: *width,
                            height: *height,
                            fps: *fps,
                            audio_sample_rate: *audio_sample_rate,
                            audio_channel_count: *audio_channel_count,
                            audio_streams: *audio_streams,
                            audio_coupled_streams: *audio_coupled_streams,
                            audio_samples_per_frame: *audio_samples_per_frame,
                            audio_mapping: *audio_mapping,
                        },
                    );
                },
                _ => {},
            }
            Downlink::Text(room.broadcast(message))
        },
        StreamerIpcMessage::PeerWebSocket { peer_id, message } => {
            match room.send_to_peer(peer_id, message) {
                Some(delivery) => Downlink::Text(delivery),
                None => Downlink::Nothing,
            }
        },
        StreamerIpcMessage::WebSocketTransport(data) => Downlink::Binary {
            recipients: room.peer_ids(),
            data,
        },
        StreamerIpcMessage::PeerWebSocketTransport { peer_id, data } => {
            match room.get_client(peer_id) {
                Some(_) => {
                    let mut recipients: Vec<PeerId> = Vec::new();
                    recipients.push(peer_id);
                    Downlink::Binary { recipients, data }
                },
                None => Downlink::Nothing,
            }
        },
        StreamerIpcMessage::PeerReady { peer_id } => Downlink::Nothing,
        StreamerIpcMessage::Stop => Downlink::End,
    }
}

/// The streamer of a room is gone: names the participants whose web
/// sockets are to be closed, in the order in which they came. After that
/// the room is taken out of the registry and the streamer is killed.
pub fn on_streamer_closed(room: &Room) -> (r: Vec<PeerId>)
    ensures
        r@ == peers_of(room@.clients),
{
    room.peer_ids()
}

} // verus!
