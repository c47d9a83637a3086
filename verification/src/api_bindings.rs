//! Values that travel between the browser, the web server and the streamer.

use vstd::prelude::*;

verus! {

#[derive(Clone, Debug, PartialEq, Eq)]
pub struct ConfigJs {
    pub path_prefix: String,
    /// The default settings as JSON text, if any are configured.
    pub default_settings: Option<String>,
}

#[derive(Clone, Debug, PartialEq, Eq)]
pub struct PostLoginRequest {
    pub name: String,
    pub password: String,
}

#[derive(Clone, Copy, Debug, PartialEq, Eq, Structural)]
pub enum HostState {
    Free,
    Busy,
}

#[derive(Clone, Copy, Debug, PartialEq, Eq, Structural)]
pub enum PairStatus {
    NotPaired,
    Paired,
}

#[derive(Clone, Copy, Debug, PartialEq, Eq, Structural)]
pub enum HostOwner {
    ThisUser,
    Global,
}

#[derive(Clone, Debug, PartialEq, Eq)]
pub struct UndetailedHost {
    pub host_id: u32,
    pub owner: HostOwner,
    pub name: String,
    pub paired: PairStatus,
    /// `None` if the host is offline, else its state.
    pub server_state: Option<HostState>,
}

#[derive(Clone, Debug, PartialEq, Eq)]
pub struct DetailedHost {
    pub host_id: u32,
    pub owner: HostOwner,
    pub name: String,
    pub paired: PairStatus,
    pub server_state: Option<HostState>,
    pub address: String,
    pub http_port: u16,
    pub https_port: u16,
    pub external_port: u16,
    pub version: String,
    pub gfe_version: String,
    pub unique_id: String,
    pub mac: Option<String>,
    pub local_ip: String,
    pub current_game: u32,
    pub max_luma_pixels_hevc: u32,
    pub server_codec_mode_support: u32,
}

#[derive(Clone, Debug, PartialEq, Eq)]
pub struct App {
    pub app_id: u32,
    pub title: String,
    pub is_hdr_supported: bool,
}

#[derive(Clone, Debug, PartialEq, Eq)]
pub struct GetHostsResponse {
    pub hosts: Vec<UndetailedHost>,
}

#[derive(Clone, Debug, PartialEq, Eq)]
pub struct GetHostQuery {
    pub host_id: u32,
}

#[derive(Clone, Debug, PartialEq, Eq)]
pub struct GetHostResponse {
    pub host: DetailedHost,
}

#[derive(Clone, Debug, PartialEq, Eq)]
pub struct PostHostRequest {
    pub address: String,
    pub http_port: Option<u16>,
}

#[derive(Clone, Debug, PartialEq, Eq)]
pub struct PostHostResponse {
    pub host: DetailedHost,
}

#[derive(Clone, Debug, PartialEq, Eq)]
pub struct PatchHostRequest {
    /// The host to change.
    pub host_id: u32,
    /// Whether `owner` is to be applied; `owner` alone cannot tell "leave it"
    /// from "make the host global".
    pub change_owner: bool,
    pub owner: Option<u32>,
}

#[derive(Clone, Debug, PartialEq, Eq)]
pub struct DeleteHostQuery {
    pub host_id: u32,
}

#[derive(Clone, Debug, PartialEq, Eq)]
pub struct PostPairRequest {
    pub host_id: u32,
}

#[derive(Clone, Debug, PartialEq, Eq)]
pub enum PostPairResponse1 {
    InternalServerError,
    PairError,
    Pin(String),
}

#[derive(Clone, Debug, PartialEq, Eq)]
pub enum PostPairResponse2 {
    PairError,
    Paired(DetailedHost),
}

#[derive(Clone, Debug, PartialEq, Eq)]
pub struct PostWakeUpRequest {
    pub host_id: u32,
}

#[derive(Clone, Debug, PartialEq, Eq)]
pub struct GetAppsQuery {
    pub host_id: u32,
}

#[derive(Clone, Debug, PartialEq, Eq)]
pub struct GetAppsResponse {
    pub apps: Vec<App>,
}

#[derive(Clone, Debug, PartialEq, Eq)]
pub struct GetAppImageQuery {
    pub host_id: u32,
    pub app_id: u32,
    pub force_refresh: bool,
}

#[derive(Clone, Debug, PartialEq, Eq)]
pub struct PostCancelRequest {
    pub host_id: u32,
}

#[derive(Clone, Debug, PartialEq, Eq)]
pub struct PostCancelResponse {
    pub success: bool,
}

#[derive(Clone, Copy, Debug, PartialEq, Eq, Structural)]
pub enum UserRole {
    User,
    Admin,
}

#[derive(Clone, Debug, PartialEq, Eq)]
pub struct GetUserQuery {
    pub name: Option<String>,
    pub user_id: Option<u32>,
}

#[derive(Clone, Debug, PartialEq, Eq)]
pub struct DetailedUser {
    pub id: u32,
    pub is_default_user: bool,
    pub name: String,
    pub role: UserRole,
    pub client_unique_id: String,
}

#[derive(Clone, Debug, PartialEq, Eq)]
pub struct PostUserRequest {
    pub name: String,
    pub password: String,
    pub role: UserRole,
    pub client_unique_id: String,
}

#[derive(Clone, Debug, PartialEq, Eq)]
pub struct PatchUserRequest {
    /// The user to change.
    pub id: u32,
    pub password: Option<String>,
    pub role: Option<UserRole>,
    pub client_unique_id: Option<String>,
}

#[derive(Clone, Debug, PartialEq, Eq)]
pub struct DeleteUserRequest {
    pub id: u32,
}

#[derive(Clone, Debug, PartialEq, Eq)]
pub struct GetUsersResponse {
    pub users: Vec<DetailedUser>,
}

/// Index of a player inside a room, 0 to 3. Slot 0 belongs to the host.
#[derive(Clone, Copy, Debug, PartialEq, Eq, Structural)]
pub struct PlayerSlot(pub u8);

impl PlayerSlot {
    /// How many players a room holds at most.
    pub const MAX_PLAYERS: usize = 4;

    /// Whether this is the slot of the room's host.
    pub fn is_host(&self) -> (r: bool)
        ensures
            r == (self.0 == 0),
    {
        self.0 == 0
    }

    /// Whether the slot alone grants keyboard and mouse: only the host's does.
    pub fn can_use_keyboard_mouse(&self) -> (r: bool)
        ensures
            r == (self.0 == 0),
    {
        self.0 == 0
    }

    /// The gamepad number under which the streaming host sees this player.
    pub fn gamepad_slot(&self) -> (r: u8)
        ensures
            r == self.0,
    {
        self.0
    }

    /// Whether the slot is one of the `MAX_PLAYERS` slots of a room.
    pub open spec fn in_range(self) -> bool {
        self.0 < 4
    }
}

/// What a participant is in its room.
#[derive(Clone, Copy, Debug, PartialEq, Eq, Structural)]
pub enum RoomRole {
    /// The participant that opened the room. It sits in slot 0.
    Host,
    /// A guest with a slot of its own.
    Player,
    /// A guest that only watches, and has no slot.
    Spectator,
}

impl RoomRole {
    pub fn is_host(&self) -> (r: bool)
        ensures
            r == (*self is Host),
    {
        match self {
            RoomRole::Host => true,
            _ => false,
        }
    }

    pub fn is_spectator(&self) -> (r: bool)
        ensures
            r == (*self is Spectator),
    {
        match self {
            RoomRole::Spectator => true,
            _ => false,
        }
    }

    /// Whether the role takes part in the game: every role but the spectator.
    pub fn can_input(&self) -> (r: bool)
        ensures
            r == !(*self is Spectator),
    {
        match self {
            RoomRole::Spectator => false,
            _ => true,
        }
    }
}

/// A player of a room, as shown to the browsers.
#[derive(Clone, Debug, PartialEq, Eq)]
pub struct RoomPlayer {
    pub slot: PlayerSlot,
    pub name: Option<String>,
    pub is_host: bool,
}

/// A participant of a room, player or spectator, as shown to the browsers.
#[derive(Clone, Debug, PartialEq, Eq)]
pub struct RoomParticipant {
    pub slot: Option<PlayerSlot>,
    pub role: RoomRole,
    pub name: Option<String>,
    pub discord_user_id: Option<String>,
    pub discord_avatar: Option<String>,
}

/// A room, as shown to the browsers.
#[derive(Clone, Debug, PartialEq, Eq)]
pub struct RoomInfo {
    pub room_id: String,
    pub host_id: u32,
    pub app_id: u32,
    pub app_name: String,
    pub players: Vec<RoomPlayer>,
    pub max_players: u8,
    pub participants: Vec<RoomParticipant>,
    pub spectator_count: usize,
}

#[derive(Clone, Copy, Debug, PartialEq, Eq, Structural)]
pub enum TransportChannelMethod {
    WebRTC,
    WebSocket,
}

/// The channel numbers, the same on both carriers.
pub struct TransportChannelId;

impl TransportChannelId {
    pub const GENERAL: u8 = 0;

    pub const STATS: u8 = 1;

    pub const HOST_VIDEO: u8 = 2;

    pub const HOST_AUDIO: u8 = 3;

    pub const MOUSE_RELIABLE: u8 = 4;

    pub const MOUSE_ABSOLUTE: u8 = 5;

    pub const MOUSE_RELATIVE: u8 = 6;

    pub const KEYBOARD: u8 = 7;

    pub const TOUCH: u8 = 8;

    pub const CONTROLLERS: u8 = 9;

    pub const CONTROLLER0: u8 = 10;

    pub const CONTROLLER1: u8 = 11;

    pub const CONTROLLER2: u8 = 12;

    pub const CONTROLLER3: u8 = 13;

    pub const CONTROLLER4: u8 = 14;

    pub const CONTROLLER5: u8 = 15;

    pub const CONTROLLER6: u8 = 16;

    pub const CONTROLLER7: u8 = 17;

    pub const CONTROLLER8: u8 = 18;

    pub const CONTROLLER9: u8 = 19;

    pub const CONTROLLER10: u8 = 20;

    pub const CONTROLLER11: u8 = 21;

    pub const CONTROLLER12: u8 = 22;

    pub const CONTROLLER13: u8 = 23;

    pub const CONTROLLER14: u8 = 24;

    pub const CONTROLLER15: u8 = 25;
}

#[derive(Clone, Copy, Debug, PartialEq, Eq, Structural)]
pub enum RtcSdpType {
    Offer,
    Answer,
    Pranswer,
    Rollback,
    Unspecified,
}

#[derive(Clone, Debug, PartialEq, Eq)]
pub struct RtcSessionDescription {
    pub ty: RtcSdpType,
    pub sdp: String,
}

#[derive(Clone, Debug, PartialEq, Eq)]
pub struct RtcIceCandidate {
    pub candidate: String,
    pub sdp_mid: Option<String>,
    pub sdp_mline_index: Option<u16>,
    pub username_fragment: Option<String>,
}

#[derive(Clone, Debug, PartialEq, Eq)]
pub enum StreamSignalingMessage {
    Description(RtcSessionDescription),
    AddIceCandidate(RtcIceCandidate),
}

/// The carrier between the streamer and one peer.
#[derive(Clone, Copy, Debug, PartialEq, Eq, Structural)]
pub enum TransportType {
    WebRTC,
    WebSocket,
}

#[derive(Clone, Copy, Debug, PartialEq, Eq, Structural)]
pub enum StreamColorspace {
    Rec601,
    Rec709,
    Rec2020,
}

/// What a browser sends over its web socket, as text frames.
#[derive(Clone, Debug, PartialEq, Eq)]
pub enum StreamClientMessage {
    /// Open a room as its host.
    Init { host_id: u32, app_id: u32, video_frame_queue_size: usize, audio_sample_queue_size: usize },
    /// Join a room as a further player.
    JoinRoom {
        room_id: String,
        player_name: Option<String>,
        video_frame_queue_size: usize,
        audio_sample_queue_size: usize,
    },
    /// Leave the room.
    LeaveRoom,
    /// Host only: let the other players use keyboard and mouse, or not.
    SetGuestsKeyboardMouseEnabled { enabled: bool },
    WebRtc(StreamSignalingMessage),
    SetTransport(TransportType),
    StartStream {
        bitrate: u32,
        packet_size: u32,
        fps: u32,
        width: u32,
        height: u32,
        play_audio_local: bool,
        video_supported_formats: u32,
        video_colorspace: StreamColorspace,
        video_color_range_full: bool,
    },
}

#[derive(Clone, Debug, PartialEq, Eq)]
pub struct RtcIceServer {
    /// Set on the servers that the configuration has by default.
    pub is_default: bool,
    pub urls: Vec<String>,
    pub username: String,
    pub credential: String,
}

/// Whether two entries name the same server in the same way.
pub open spec fn same_ice_server(a: RtcIceServer, b: RtcIceServer) -> bool {
    &&& a.is_default == b.is_default
    &&& a.urls@ == b.urls@
    &&& a.username == b.username
    &&& a.credential == b.credential
}

/// Whether two lists name the same servers in the same order.
pub open spec fn same_ice_servers(a: Seq<RtcIceServer>, b: Seq<RtcIceServer>) -> bool {
    a.len() == b.len() && forall|i: int| 0 <= i < a.len() ==> same_ice_server(#[trigger] a[i], b[i])
}

impl Default for RtcIceServer {
    /// An entry without addresses and credentials that is not one of the
    /// defaults.
    fn default() -> (r: Self)
        ensures
            !r.is_default,
            r.urls@ == Seq::<String>::empty(),
            r.username@ == Seq::<char>::empty(),
            r.credential@ == Seq::<char>::empty(),
    {
        RtcIceServer {
            is_default: false,
            urls: Vec::new(),
            username: String::new(),
            credential: String::new(),
        }
    }
}

/// The texts of `parts` in a row, with `", "` between each two.
pub open spec fn comma_separated(parts: Seq<String>) -> Seq<char>
    decreases parts.len(),
{
    if parts.len() == 0 {
        Seq::empty()
    } else if parts.len() == 1 {
        parts[0]@
    } else {
        comma_separated(parts.drop_last()) + ", "@ + parts.last()@
    }
}

impl RtcIceServer {
    /// The entry as a line of text for the log.
    pub open spec fn description(self) -> Seq<char> {
        "urls=["@ + comma_separated(self.urls@) + "], username=\""@ + self.username@
            + "\", credential=\""@ + self.credential@ + "\""@
    }

    /// The entry as a line of text for the log.
    pub fn describe(&self) -> (r: String)
        ensures
            r@ == self.description(),
    {
        let mut text = String::from_str("urls=[");
        let mut i: usize = 0;
        while i < self.urls.len()
            invariant
                i <= self.urls@.len(),
                text@ == "urls=["@ + comma_separated(self.urls@.subrange(0, i as int)),
            decreases self.urls.len() - i,
        {
            proof {
                let next = self.urls@.subrange(0, i + 1);
                assert(next.drop_last() == self.urls@.subrange(0, i as int));
                assert(next.last() == self.urls@[i as int]);
                assert(self.urls@.subrange(0, 1)[0] == self.urls@[0]);
            }
            if i > 0 {
                text.append(", ");
            }
            text.append(self.urls[i].as_str());
            i += 1;
            assert(text@ =~= "urls=["@ + comma_separated(self.urls@.subrange(0, i as int)));
        }
        assert(self.urls@.subrange(0, i as int) == self.urls@);
        text.append("], username=\"");
        text.append(self.username.as_str());
        text.append("\", credential=\"");
        text.append(self.credential.as_str());
        text.append("\"");
        text
    }

    /// A copy of the entry.
    pub fn duplicate(&self) -> (r: RtcIceServer)
        ensures
            same_ice_server(r, *self),
    {
        let mut urls: Vec<String> = Vec::new();
        let mut i: usize = 0;
        while i < self.urls.len()
            invariant
                i <= self.urls@.len(),
                urls@ == self.urls@.subrange(0, i as int),
            decreases self.urls.len() - i,
        {
            urls.push(self.urls[i].clone());
            i += 1;
        }
        assert(self.urls@.subrange(0, i as int) == self.urls@);
        RtcIceServer {
            is_default: self.is_default,
            urls,
            username: self.username.clone(),
            credential: self.credential.clone(),
        }
    }
}

/// A copy of a list of servers.
pub fn duplicate_ice_servers(servers: &Vec<RtcIceServer>) -> (r: Vec<RtcIceServer>)
    ensures
        same_ice_servers(r@, servers@),
{
    let mut copies: Vec<RtcIceServer> = Vec::new();
    let mut i: usize = 0;
    while i < servers.len()
        invariant
            i <= servers@.len(),
            copies@.len() == i,
            forall|j: int| 0 <= j < i ==> same_ice_server(#[trigger] copies@[j], servers@[j]),
        decreases servers.len() - i,
    {
        copies.push(servers[i].duplicate());
        i += 1;
    }
    copies
}

#[derive(Clone, Copy, Debug, PartialEq, Eq, Structural)]
pub struct StreamCapabilities {
    pub touch: bool,
}

#[derive(Clone, Copy, Debug, PartialEq, Eq, Structural)]
pub enum LogMessageType {
    Fatal,
    FatalDescription,
    Recover,
    InformError,
}

/// What the server sends to a browser, as text frames.
#[derive(Clone, Debug, PartialEq, Eq)]
pub enum StreamServerMessage {
    Setup { ice_servers: Vec<RtcIceServer> },
    WebRtc(StreamSignalingMessage),
    UpdateApp { app: App },
    DebugLog { message: String, ty: Option<LogMessageType> },
    ConnectionComplete {
        capabilities: StreamCapabilities,
        /// One of the video formats, as its number.
        format: u32,
        width: u32,
        height: u32,
        fps: u32,
        audio_sample_rate: u32,
        audio_channel_count: u32,
        audio_streams: u32,
        audio_coupled_streams: u32,
        audio_samples_per_frame: u32,
        audio_mapping: [u8; 8],
    },
    ConnectionTerminated { error_code: i32 },
    /// The room is open; sent to its host.
    RoomCreated { room: RoomInfo, player_slot: PlayerSlot },
    /// The sender is now in the room.
    RoomJoined { room: RoomInfo, player_slot: PlayerSlot },
    /// Someone joined or left.
    RoomUpdated { room: RoomInfo },
    RoomJoinFailed { reason: String },
    PlayerLeft { slot: PlayerSlot },
    /// The host left, and the room with it.
    RoomClosed,
    GuestsKeyboardMouseEnabled { enabled: bool },
}

#[derive(Clone, Copy, Debug, PartialEq, Eq, Structural)]
pub enum ConnectionStatus {
    Okay,
    Poor,
}

#[derive(Clone, Copy, Debug, PartialEq, Eq, Structural)]
pub enum GeneralServerMessage {
    ConnectionStatusUpdate { status: ConnectionStatus },
}

} // verus!
